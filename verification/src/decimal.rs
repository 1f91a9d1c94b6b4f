//! Decimal text for `i32` values: the form that `i32::to_string` writes
//! and the form that `str::parse::<i32>` reads. Session cookies and route
//! segments carry ids in this form, so the two directions are proved to
//! agree.
use vstd::prelude::*;

verus! {

/// Why a text is not a decimal `i32`.
#[derive(Debug, Clone, Copy, PartialEq, Eq)]
pub enum IntErrorKind {
    /// The text is empty.
    Empty,
    /// The text holds a character that is not a digit (after an optional
    /// leading sign), or holds a sign and nothing else.
    InvalidDigit,
    /// The value is above `i32::MAX`.
    PosOverflow,
    /// The value is below `i32::MIN`.
    NegOverflow,
}

/// The error of [`parse_i32`].
#[derive(Debug, Clone, Copy, PartialEq, Eq)]
pub struct ParseIntError {
    pub kind: IntErrorKind,
}

pub open spec fn digit_char(d: int) -> char {
    ((d + 48) as u8) as char
}

pub open spec fn is_digit(c: char) -> bool {
    '0' <= c && c <= '9'
}

pub open spec fn digit_value(c: char) -> int {
    (c as int) - 48
}

/// The digits of `n`, most significant first, without leading zeros.
pub open spec fn nat_digits(n: nat) -> Seq<char>
    decreases n,
{
    if n < 10 {
        seq![digit_char(n as int)]
    } else {
        nat_digits(n / 10).push(digit_char((n % 10) as int))
    }
}

/// The decimal text of `v`: a `-` for negative values, then the digits of
/// its magnitude.
pub open spec fn int_to_decimal(v: int) -> Seq<char> {
    if v < 0 {
        seq!['-'] + nat_digits((-v) as nat)
    } else {
        nat_digits(v as nat)
    }
}

pub open spec fn all_digits(s: Seq<char>) -> bool {
    forall|i: int| 0 <= i < s.len() ==> is_digit(#[trigger] s[i])
}

/// The value of a text made of digits, read most significant first.
pub open spec fn digits_value(s: Seq<char>) -> nat
    decreases s.len(),
{
    if s.len() == 0 {
        0
    } else {
        (digits_value(s.drop_last()) * 10 + digit_value(s.last())) as nat
    }
}

/// Whether the text starts with `-`, and the text after an optional sign.
pub open spec fn split_sign(s: Seq<char>) -> (bool, Seq<char>) {
    if s.len() > 0 && s[0] == '-' {
        (true, s.skip(1))
    } else if s.len() > 0 && s[0] == '+' {
        (false, s.skip(1))
    } else {
        (false, s)
    }
}

/// Whether the first `p` characters of `s` are digits and the one after
/// them, if any, is not: `p` is the length of the run of leading digits.
pub open spec fn is_digit_run(s: Seq<char>, p: nat) -> bool {
    &&& p <= s.len()
    &&& all_digits(s.take(p as int))
    &&& (p == s.len() || !is_digit(s[p as int]))
}

/// The length of the run of digits that `s` starts with.
pub open spec fn digit_run_len(s: Seq<char>) -> nat {
    choose|p: nat| is_digit_run(s, p)
}

/// What reading `s` as a decimal `i32` gives: an optional `+` or `-`, then
/// one or more digits, whose value must fit the type. The digits are read
/// from the left, so a value that leaves the type's range before the first
/// character that is not a digit is an overflow, not an invalid digit.
pub open spec fn spec_parse_i32(s: Seq<char>) -> Result<i32, IntErrorKind> {
    if s.len() == 0 {
        Err(IntErrorKind::Empty)
    } else {
        let (negative, digits) = split_sign(s);
        if digits.len() == 0 {
            Err(IntErrorKind::InvalidDigit)
        } else {
            let run = digits.take(digit_run_len(digits) as int);
            let v: int = if negative {
                -digits_value(run)
            } else {
                digits_value(run) as int
            };
            if v > i32::MAX {
                Err(IntErrorKind::PosOverflow)
            } else if v < i32::MIN {
                Err(IntErrorKind::NegOverflow)
            } else if run.len() < digits.len() {
                Err(IntErrorKind::InvalidDigit)
            } else {
                Ok(v as i32)
            }
        }
    }
}

/// The message that describes each kind of error.
pub open spec fn int_error_message(kind: IntErrorKind) -> Seq<char> {
    match kind {
        IntErrorKind::Empty => "cannot parse integer from empty string"@,
        IntErrorKind::InvalidDigit => "invalid digit found in string"@,
        IntErrorKind::PosOverflow => "number too large to fit in target type"@,
        IntErrorKind::NegOverflow => "number too small to fit in target type"@,
    }
}

#[verifier::external_body]
fn push_char(s: &mut String, c: char)
    ensures
        final(s)@ == old(s)@.push(c),
{
    s.push(c)
}

fn digit_to_char(d: u32) -> (c: char)
    requires
        d < 10,
    ensures
        c == digit_char(d as int),
{
    ((d as u8) + 48u8) as char
}

fn push_digits(s: &mut String, n: u32)
    ensures
        final(s)@ == old(s)@ + nat_digits(n as nat),
    decreases n,
{
    if n >= 10 {
        push_digits(s, n / 10);
    }
    push_char(s, digit_to_char(n % 10));
    proof {
        if n < 10 {
            assert(old(s)@ + nat_digits(n as nat) =~= old(s)@.push(digit_char(n as int)));
        } else {
            assert(old(s)@ + nat_digits(n as nat) =~= (old(s)@ + nat_digits((n / 10) as nat)).push(
                digit_char((n % 10) as int),
            ));
        }
    }
}

/// Appends the decimal text of `v` to `s`.
pub fn push_i32(s: &mut String, v: i32)
    ensures
        final(s)@ == old(s)@ + int_to_decimal(v as int),
{
    if v < 0 {
        push_char(s, '-');
        let magnitude: u32 = if v == i32::MIN {
            2147483648u32
        } else {
            (-v) as u32
        };
        push_digits(s, magnitude);
        assert(old(s)@ + int_to_decimal(v as int) =~= old(s)@.push('-') + nat_digits(
            magnitude as nat,
        ));
    } else {
        push_digits(s, v as u32);
    }
}

/// The decimal text of `v`, as `v.to_string()` writes it.
pub fn i32_to_string(v: i32) -> (s: String)
    ensures
        s@ == int_to_decimal(v as int),
{
    let mut s = String::new();
    push_i32(&mut s, v);
    assert(Seq::<char>::empty() + int_to_decimal(v as int) =~= int_to_decimal(v as int));
    s
}

/// The run of leading digits has one length only.
proof fn lemma_digit_run_unique(s: Seq<char>, p: nat)
    requires
        is_digit_run(s, p),
    ensures
        digit_run_len(s) == p,
{
    let q = digit_run_len(s);
    assert(is_digit_run(s, q));
    if q < p {
        assert(s.take(p as int)[q as int] == s[q as int]);
    } else if p < q {
        assert(s.take(q as int)[p as int] == s[p as int]);
    }
}

proof fn lemma_digits_value_push(s: Seq<char>, c: char)
    requires
        is_digit(c),
    ensures
        digits_value(s.push(c)) == digits_value(s) * 10 + digit_value(c),
{
    assert(s.push(c).drop_last() =~= s);
}

/// Reads `text` as a decimal `i32`, as `text.parse::<i32>()` does.
pub fn parse_i32(text: &str) -> (r: Result<i32, ParseIntError>)
    ensures
        match spec_parse_i32(text@) {
            Ok(v) => r == Ok::<i32, ParseIntError>(v),
            Err(k) => r == Err::<i32, ParseIntError>(ParseIntError { kind: k }),
        },
{
    let len = text.unicode_len();
    if len == 0 {
        return Err(ParseIntError { kind: IntErrorKind::Empty });
    }
    let first = text.get_char(0);
    let negative = first == '-';
    let start: usize = if first == '-' || first == '+' {
        1
    } else {
        0
    };
    let ghost digits = split_sign(text@).1;
    assert(digits =~= text@.skip(start as int));
    if start == len {
        return Err(ParseIntError { kind: IntErrorKind::InvalidDigit });
    }
    // `acc` holds the value of the digits read so far while it stays at most
    // 2^31; `big` records that the value has gone past that bound.
    let mut acc: u64 = 0;
    let mut big = false;
    let mut i = start;
    let mut stopped = false;
    while i < len && !stopped
        invariant
            start <= i <= len,
            len == text@.len(),
            start < len,
            digits =~= text@.skip(start as int),
            digits == split_sign(text@).1,
            all_digits(text@.subrange(start as int, i as int)),
            stopped ==> !is_digit(text@[i as int]) && i < len,
            !big ==> acc as int == digits_value(text@.subrange(start as int, i as int)),
            !big ==> acc <= 2147483648,
            big ==> digits_value(text@.subrange(start as int, i as int)) > 2147483648,
        decreases len - i + (if stopped { 0int } else { 1int }),
    {
        let c = text.get_char(i);
        if !('0' <= c && c <= '9') {
            stopped = true;
        } else {
            let ghost prev = text@.subrange(start as int, i as int);
            assert(text@.subrange(start as int, i + 1) =~= prev.push(c));
            proof {
                lemma_digits_value_push(prev, c);
            }
            let d = (c as u32 - 48) as u64;
            if !big {
                let next = acc * 10 + d;
                if next > 2147483648 {
                    big = true;
                } else {
                    acc = next;
                }
            }
            i = i + 1;
        }
    }
    let ghost run_len = (i - start) as nat;
    proof {
        assert(digits.take(run_len as int) =~= text@.subrange(start as int, i as int));
        if run_len < digits.len() {
            assert(digits[run_len as int] == text@[i as int]);
        }
        lemma_digit_run_unique(digits, run_len);
    }
    if big {
        if negative {
            Err(ParseIntError { kind: IntErrorKind::NegOverflow })
        } else {
            Err(ParseIntError { kind: IntErrorKind::PosOverflow })
        }
    } else if !negative && acc > 2147483647 {
        Err(ParseIntError { kind: IntErrorKind::PosOverflow })
    } else if i < len {
        Err(ParseIntError { kind: IntErrorKind::InvalidDigit })
    } else if negative {
        Ok((-(acc as i64)) as i32)
    } else {
        Ok(acc as i32)
    }
}

/// The message of a parse error, as its `Display` shows it.
pub fn int_error_text(e: &ParseIntError) -> (s: String)
    ensures
        s@ == int_error_message(e.kind),
{
    match e.kind {
        IntErrorKind::Empty => String::from_str("cannot parse integer from empty string"),
        IntErrorKind::InvalidDigit => String::from_str("invalid digit found in string"),
        IntErrorKind::PosOverflow => String::from_str("number too large to fit in target type"),
        IntErrorKind::NegOverflow => String::from_str("number too small to fit in target type"),
    }
}

proof fn lemma_digit_char(d: int)
    requires
        0 <= d < 10,
    ensures
        digit_value(digit_char(d)) == d,
        is_digit(digit_char(d)),
{
}

proof fn lemma_nat_digits_shape(n: nat)
    ensures
        nat_digits(n).len() > 0,
        all_digits(nat_digits(n)),
        digits_value(nat_digits(n)) == n,
        is_digit(nat_digits(n)[0]),
    decreases n,
{
    if n < 10 {
        lemma_digit_char(n as int);
        assert(nat_digits(n) =~= seq![digit_char(n as int)]);
        assert(seq![digit_char(n as int)].drop_last() =~= Seq::<char>::empty());
        assert(digits_value(Seq::<char>::empty()) == 0);
    } else {
        lemma_nat_digits_shape(n / 10);
        lemma_digit_char((n % 10) as int);
        let s = nat_digits(n / 10);
        assert(nat_digits(n).drop_last() =~= s);
        assert(n == (n / 10) * 10 + n % 10) by (nonlinear_arith);
        assert(nat_digits(n).last() == digit_char((n % 10) as int));
        assert(digits_value(nat_digits(n)) == digits_value(s) * 10 + (n % 10));
        assert forall|i: int| 0 <= i < nat_digits(n).len() implies is_digit(
            #[trigger] nat_digits(n)[i],
        ) by {
            if i < s.len() {
                assert(nat_digits(n)[i] == s[i]);
            }
        }
    }
}

/// Reading back the decimal text of any `i32` gives that value: what
/// `i32_to_string` writes, `parse_i32` reads as the same number.
pub proof fn lemma_decimal_roundtrip(v: i32)
    ensures
        spec_parse_i32(int_to_decimal(v as int)) == Ok::<i32, IntErrorKind>(v),
{
    let s = int_to_decimal(v as int);
    if v < 0 {
        let m = (-(v as int)) as nat;
        lemma_nat_digits_shape(m);
        assert(s[0] == '-');
        assert(s.skip(1) =~= nat_digits(m));
        assert(nat_digits(m).take(nat_digits(m).len() as int) =~= nat_digits(m));
        lemma_digit_run_unique(nat_digits(m), nat_digits(m).len());
    } else {
        lemma_nat_digits_shape(v as nat);
        assert(s[0] != '-' && s[0] != '+');
        assert(s.take(s.len() as int) =~= s);
        lemma_digit_run_unique(s, s.len());
    }
}

} // verus!
