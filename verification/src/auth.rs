//! Accounts and sessions: salted password hashes, the login check, and
//! the two session cookies (`user_id` and `pw2hash`) that later requests
//! are checked against.
use vstd::prelude::*;
use crate::decimal;
use crate::decimal::{int_error_text, i32_to_string, parse_i32, ParseIntError};
use crate::digest;
use crate::digest::{hex_encode, sha512};
use crate::models::{NewUser, User};

verus! {

/// The salt that accounts made by [`create_user_debug`] get.
pub const DEBUG_SALT: &'static str = "saaaaltpls";

/// The page with the login form; it has no fields.
#[derive(Debug)]
pub struct LoginTemplate {}

/// What the login form posts.
#[derive(Debug)]
pub struct LoginForm {
    pub username: String,
    pub password: String,
}

/// Who a request is made by, as a session tells it.
#[derive(Debug)]
pub struct AuthCookie {
    pub userid: u32,
    pub username: String,
    pub display: Option<String>,
}

/// Why a login or a session was refused; the detail is shown to the user.
#[derive(Debug)]
pub struct AuthError {
    pub error_detail: String,
}

/// One cookie that a session sets: its name and its value.
#[derive(Debug)]
pub struct SessionCookie {
    pub name: String,
    pub value: String,
}

/// The answer to a login attempt: the page text and the cookies to set.
#[derive(Debug)]
pub struct LoginReply {
    pub body: String,
    pub cookies: Vec<SessionCookie>,
}

/// What the session cookies of a request claim: the user's id and the
/// hash of the user's stored password hash.
#[derive(Debug)]
pub struct SessionClaim {
    pub user_id: i32,
    pub pw2hash: String,
}

/// The text that the hash of `text` is: the lowercase hex of the SHA-512
/// digest of its UTF-8 bytes.
pub open spec fn hash_text(text: Seq<char>) -> Seq<char> {
    digest::hex_lower(digest::sha512_digest(vstd::utf8::encode_utf8(text)))
}

/// The stored hash of a password with its salt: the hash of the password
/// followed by the salt.
pub open spec fn salted_hash(pass: Seq<char>, salt: Seq<char>) -> Seq<char> {
    hash_text(pass + salt)
}

/// A lookup result with its error message taken by view.
pub open spec fn lookup_view<T>(lookup: Result<T, String>) -> Result<T, Seq<char>> {
    match lookup {
        Ok(v) => Ok(v),
        Err(m) => Err(m@),
    }
}

/// An authentication result with the error taken as its detail text.
pub open spec fn auth_view<T>(r: Result<T, AuthError>) -> Result<T, Seq<char>> {
    match r {
        Ok(v) => Ok(v),
        Err(e) => Err(e.error_detail@),
    }
}

/// The outcome of a login attempt for the user row that the lookup by
/// name found: the user where the salted hash of the password matches the
/// stored one, else the reason.
pub open spec fn login_check(lookup: Result<User, Seq<char>>, pass: Seq<char>) -> Result<
    User,
    Seq<char>,
> {
    match lookup {
        Err(m) => Err("Couldn't find user "@ + m),
        Ok(user) => if salted_hash(pass, user.salt@) == user.pass_sha@ {
            Ok(user)
        } else {
            Err("Incorrect password."@)
        },
    }
}

/// The cookies, as (name, value) pairs, that a session of `user` sets.
pub open spec fn session_cookies_spec(user: User) -> Seq<(Seq<char>, Seq<char>)> {
    seq![("user_id"@, decimal::int_to_decimal(user.id as int)), ("pw2hash"@, hash_text(user.pass_sha@))]
}

pub open spec fn cookie_view(c: SessionCookie) -> (Seq<char>, Seq<char>) {
    (c.name@, c.value@)
}

pub open spec fn cookies_view(cookies: Seq<SessionCookie>) -> Seq<(Seq<char>, Seq<char>)> {
    cookies.map_values(|c: SessionCookie| cookie_view(c))
}

pub open spec fn str_option_view(o: Option<&str>) -> Option<Seq<char>> {
    match o {
        Some(s) => Some(s@),
        None => None,
    }
}

/// What the two session cookies claim: the user id read from `user_id`
/// and the hash in `pw2hash`, or why they claim nothing.
pub open spec fn read_session_spec(user_id: Option<Seq<char>>, pw2hash: Option<Seq<char>>) -> Result<
    (i32, Seq<char>),
    Seq<char>,
> {
    match (user_id, pw2hash) {
        (Some(id_text), Some(hash)) => match decimal::spec_parse_i32(id_text) {
            Ok(id) => Ok((id, hash)),
            Err(k) => Err("Error parsing integer. "@ + decimal::int_error_message(k)),
        },
        _ => Err("Missing auth cookie."@),
    }
}

/// The value of cookie `name` in a jar of cookies, by name.
pub open spec fn jar_get(jar: Map<Seq<char>, Seq<char>>, name: Seq<char>) -> Option<Seq<char>> {
    if jar.contains_key(name) {
        Some(jar[name])
    } else {
        None
    }
}

/// The jar that holds just the cookies of a session of `user`.
pub open spec fn session_jar(user: User) -> Map<Seq<char>, Seq<char>> {
    Map::empty().insert(session_cookies_spec(user)[0].0, session_cookies_spec(user)[0].1).insert(
        session_cookies_spec(user)[1].0,
        session_cookies_spec(user)[1].1,
    )
}

/// The whole session check of a request: the claim of its two cookies,
/// then the check against what the lookup of a user by the claimed id
/// (`by_id`) gives.
pub open spec fn validate_session_spec(
    user_id: Option<Seq<char>>,
    pw2hash: Option<Seq<char>>,
    by_id: spec_fn(i32) -> Result<User, Seq<char>>,
) -> Result<User, Seq<char>> {
    match read_session_spec(user_id, pw2hash) {
        Err(detail) => Err(detail),
        Ok((id, hash)) => session_check_spec(hash, by_id(id)),
    }
}

/// The user that a session stands for, given the claimed hash and the row
/// that the lookup by the claimed id found.
pub open spec fn session_check_spec(pw2hash: Seq<char>, lookup: Result<User, Seq<char>>) -> Result<
    User,
    Seq<char>,
> {
    match lookup {
        Err(m) => Err("Error querying db: "@ + m),
        Ok(user) => if hash_text(user.pass_sha@) == pw2hash {
            Ok(user)
        } else {
            Err("Password in cookie doesn't match database."@)
        },
    }
}

fn text_then(prefix: &str, rest: &str) -> (s: String)
    ensures
        s@ == prefix@ + rest@,
{
    let mut s = String::from_str(prefix);
    s.append(rest);
    s
}

fn auth_error(detail: &str) -> (e: AuthError)
    ensures
        e.error_detail@ == detail@,
{
    AuthError { error_detail: String::from_str(detail) }
}

impl AuthError {
    /// The error for a user id that does not read as a number.
    pub fn from_parse_error(e: &ParseIntError) -> (r: AuthError)
        ensures
            r.error_detail@ == "Error parsing integer. "@ + decimal::int_error_message(e.kind),
    {
        let message = int_error_text(e);
        AuthError { error_detail: text_then("Error parsing integer. ", message.as_str()) }
    }

    /// The error for a failed query, given the query error's message.
    pub fn from_query_error(message: &str) -> (r: AuthError)
        ensures
            r.error_detail@ == "Error querying db: "@ + message@,
    {
        AuthError { error_detail: text_then("Error querying db: ", message) }
    }
}

/// The login page: the login form, which needs no data.
pub fn login_page() -> (page: LoginTemplate) {
    LoginTemplate {}
}

/// The hash of `input`: the lowercase hex of the SHA-512 digest of its
/// bytes.
pub fn create_hash_string(input: &String) -> (h: String)
    ensures
        h@ == hash_text(input@),
{
    let digest = sha512(input.as_str().as_bytes());
    hex_encode(digest.as_slice())
}

/// The stored hash of `pass` with `salt`.
pub fn create_salted_pwhash(pass: &String, salt: &String) -> (h: String)
    ensures
        h@ == salted_hash(pass@, salt@),
        h@ == hash_text(pass@ + salt@),
{
    let combined = text_then(pass.as_str(), salt.as_str());
    create_hash_string(&combined)
}

/// The account row for `name` with password `pass` and the debug salt,
/// and the text that reports it. The caller stores the row.
pub fn create_user_debug(name: String, pass: String) -> (r: (NewUser, String))
    ensures
        r.0.username@ == name@,
        r.0.salt@ == DEBUG_SALT@,
        r.0.pass_sha@ == salted_hash(pass@, DEBUG_SALT@),
        r.1@ == "Added user "@ + name@,
{
    let salt = String::from_str(DEBUG_SALT);
    let hash = create_salted_pwhash(&pass, &salt);
    let message = text_then("Added user ", name.as_str());
    (NewUser { username: name, pass_sha: hash, salt }, message)
}

/// Checks a password against the user row that the lookup by name gave.
pub fn validate_login_attempt(lookup: Result<User, String>, pass: &String) -> (r: Result<
    User,
    AuthError,
>)
    ensures
        auth_view(r) == login_check(lookup_view(lookup), pass@),
        match lookup {
            Err(_) => r is Err,
            Ok(user) => (hash_text(pass@ + user.salt@) == user.pass_sha@ ==> r == Ok::<
                User,
                AuthError,
            >(user)) && (hash_text(pass@ + user.salt@) != user.pass_sha@ ==> r is Err),
        },
{
    match lookup {
        Err(e) => Err(AuthError { error_detail: text_then("Couldn't find user ", e.as_str()) }),
        Ok(user) => {
            let pass_sha = create_salted_pwhash(pass, &user.salt);
            if pass_sha == user.pass_sha {
                Ok(user)
            } else {
                Err(auth_error("Incorrect password."))
            }
        },
    }
}

/// The two cookies that make a session for `user`: its id in decimal, and
/// the hash of its stored password hash.
pub fn create_session_cookies(user: &User) -> (cookies: Vec<SessionCookie>)
    ensures
        cookies_view(cookies@) == session_cookies_spec(*user),
{
    let mut cookies: Vec<SessionCookie> = Vec::new();
    cookies.push(SessionCookie { name: String::from_str("user_id"), value: i32_to_string(user.id) });
    cookies.push(
        SessionCookie { name: String::from_str("pw2hash"), value: create_hash_string(&user.pass_sha) },
    );
    assert(cookies_view(cookies@) =~= session_cookies_spec(*user));
    cookies
}

/// The names of the cookies that ending a session removes.
pub fn remove_session_cookies() -> (names: Vec<String>)
    ensures
        names@.map_values(|n: String| n@) == seq!["user_id"@, "pw2hash"@],
{
    let mut names: Vec<String> = Vec::new();
    names.push(String::from_str("user_id"));
    names.push(String::from_str("pw2hash"));
    assert(names@.map_values(|n: String| n@) =~= seq!["user_id"@, "pw2hash"@]);
    names
}

/// The answer to a login form, given the user row that the lookup by the
/// form's user name gave: on success the session cookies of that user and
/// a greeting, else the reason.
pub fn login_handle(lookup: Result<User, String>, form: &LoginForm) -> (reply: LoginReply)
    ensures
        match login_check(lookup_view(lookup), form.password@) {
            Err(detail) => reply.body@ == "Couldn't log in: "@ + detail && reply.cookies@.len()
                == 0,
            Ok(user) => reply.body@ == "you're logged in now, "@ + form.username@
                + ". <a href=\"/\">continue home</a>"@ && cookies_view(reply.cookies@)
                == session_cookies_spec(user),
        },
{
    match validate_login_attempt(lookup, &form.password) {
        Err(e) => LoginReply {
            body: text_then("Couldn't log in: ", e.error_detail.as_str()),
            cookies: Vec::new(),
        },
        Ok(user) => {
            let cookies = create_session_cookies(&user);
            let mut body = text_then("you're logged in now, ", form.username.as_str());
            body.append(". <a href=\"/\">continue home</a>");
            LoginReply { body, cookies }
        },
    }
}

/// Reads what the session cookies of a request claim. Both cookies must be
/// present, and `user_id` must read as a decimal `i32`.
pub fn read_session_cookies(user_id: Option<&str>, pw2hash: Option<&str>) -> (r: Result<
    SessionClaim,
    AuthError,
>)
    ensures
        match read_session_spec(str_option_view(user_id), str_option_view(pw2hash)) {
            Ok((id, hash)) => r matches Ok(claim) && claim.user_id == id && claim.pw2hash@ == hash,
            Err(detail) => r matches Err(e) && e.error_detail@ == detail,
        },
{
    match (user_id, pw2hash) {
        (Some(id_text), Some(hash)) => match parse_i32(id_text) {
            Ok(id) => Ok(SessionClaim { user_id: id, pw2hash: String::from_str(hash) }),
            Err(e) => Err(AuthError::from_parse_error(&e)),
        },
        _ => Err(auth_error("Missing auth cookie.")),
    }
}

/// Checks a session claim against the user row that the lookup by the
/// claimed id gave.
pub fn validate_session_cookies(claim: &SessionClaim, lookup: Result<User, String>) -> (r: Result<
    User,
    AuthError,
>)
    ensures
        auth_view(r) == session_check_spec(claim.pw2hash@, lookup_view(lookup)),
{
    match lookup {
        Err(e) => Err(AuthError::from_query_error(e.as_str())),
        Ok(user) => {
            let db_pw2hash = create_hash_string(&user.pass_sha);
            if db_pw2hash == claim.pw2hash {
                Ok(user)
            } else {
                Err(auth_error("Password in cookie doesn't match database."))
            }
        },
    }
}

/// A session made for a user is accepted for that user: the cookies that
/// `create_session_cookies` sets read back as the user's id and hash, and
/// the check against the user's row, found by that id, gives the user.
pub proof fn lemma_session_cookies_identify_user(user: User)
    ensures
        read_session_spec(
            Some(session_cookies_spec(user)[0].1),
            Some(session_cookies_spec(user)[1].1),
        ) == Ok::<(i32, Seq<char>), Seq<char>>((user.id, hash_text(user.pass_sha@))),
        session_check_spec(hash_text(user.pass_sha@), Ok(user)) == Ok::<User, Seq<char>>(user),
{
    decimal::lemma_decimal_roundtrip(user.id);
}

/// Logging in and then checking the session gives the user who logged in
/// under that name. `by_id` is what the lookup of a user by id gives; the
/// row that the lookup by `name` found carries that name and is the row
/// that the lookup by its id finds. Where the login with `pass` succeeded,
/// the session check of the cookies that the login set gives that user.
pub proof fn lemma_login_then_session(
    name: Seq<char>,
    pass: Seq<char>,
    row: User,
    user: User,
    by_id: spec_fn(i32) -> Result<User, Seq<char>>,
)
    requires
        row.username@ == name,
        by_id(row.id) == Ok::<User, Seq<char>>(row),
        login_check(Ok(row), pass) == Ok::<User, Seq<char>>(user),
    ensures
        user.username@ == name,
        validate_session_spec(
            jar_get(session_jar(user), "user_id"@),
            jar_get(session_jar(user), "pw2hash"@),
            by_id,
        ) == Ok::<User, Seq<char>>(user),
{
    lemma_session_cookies_identify_user(user);
    reveal_strlit("user_id");
    reveal_strlit("pw2hash");
    assert("user_id"@[0] != "pw2hash"@[0]);
    assert(jar_get(session_jar(user), "user_id"@) == Some(session_cookies_spec(user)[0].1));
    assert(jar_get(session_jar(user), "pw2hash"@) == Some(session_cookies_spec(user)[1].1));
}

/// Once a session has ended, the session check refuses the request: where
/// the jar holds none of the cookies that `remove_session_cookies` names,
/// the check answers that an auth cookie is missing, whatever the users
/// are.
pub proof fn lemma_logout_ends_session(
    jar: Map<Seq<char>, Seq<char>>,
    by_id: spec_fn(i32) -> Result<User, Seq<char>>,
)
    ensures
        validate_session_spec(
            jar_get(jar.remove("user_id"@).remove("pw2hash"@), "user_id"@),
            jar_get(jar.remove("user_id"@).remove("pw2hash"@), "pw2hash"@),
            by_id,
        ) == Err::<User, Seq<char>>("Missing auth cookie."@),
{
    reveal_strlit("user_id");
    reveal_strlit("pw2hash");
}

/// The stored hash of a password is the hash of the whole password
/// followed by the salt: it depends on the two only through their
/// concatenation, so splitting the same text differently between password
/// and salt gives the same hash, and every character of the password counts.
pub proof fn lemma_salted_hash_covers_whole_password(
    pass: Seq<char>,
    salt: Seq<char>,
    pass2: Seq<char>,
    salt2: Seq<char>,
)
    ensures
        salted_hash(pass, salt) == hash_text(pass + salt),
        pass + salt == pass2 + salt2 ==> salted_hash(pass, salt) == salted_hash(pass2, salt2),
{
}

/// A login checks the password against the row's own salt, whatever that
/// salt is: it accepts the password exactly where the hash of the password
/// followed by the row's salt is the row's stored hash, and then gives
/// that row.
pub proof fn lemma_login_uses_row_salt(user: User, pass: Seq<char>)
    ensures
        hash_text(pass + user.salt@) == user.pass_sha@ ==> login_check(Ok(user), pass) == Ok::<
            User,
            Seq<char>,
        >(user),
        hash_text(pass + user.salt@) != user.pass_sha@ ==> login_check(Ok(user), pass) is Err,
{
}

/// An account made with a password accepts that password: the row stored
/// from `create_user_debug(name, pass)`, whatever id it got, passes the
/// login check for `pass`.
pub proof fn lemma_registered_password_accepted(name: Seq<char>, pass: Seq<char>, user: User)
    requires
        user.username@ == name,
        user.salt@ == DEBUG_SALT@,
        user.pass_sha@ == salted_hash(pass, DEBUG_SALT@),
    ensures
        login_check(Ok(user), pass) == Ok::<User, Seq<char>>(user),
{
}

/// Ending a session removes exactly the cookies that starting one sets.
pub proof fn lemma_logout_removes_session_cookies(user: User)
    ensures
        seq!["user_id"@, "pw2hash"@] == session_cookies_spec(user).map_values(
            |c: (Seq<char>, Seq<char>)| c.0,
        ),
{
    assert(seq!["user_id"@, "pw2hash"@] =~= session_cookies_spec(user).map_values(
        |c: (Seq<char>, Seq<char>)| c.0,
    ));
}

} // verus!
