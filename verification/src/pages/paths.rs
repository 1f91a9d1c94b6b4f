//! Paths of pages that carry an id.
use vstd::prelude::*;
use crate::decimal;
use crate::decimal::push_i32;

verus! {

/// `prefix`, the decimal text of `id`, then `suffix`.
pub fn path_with_id(prefix: &str, id: i32, suffix: &str) -> (p: String)
    ensures
        p@ == prefix@ + decimal::int_to_decimal(id as int) + suffix@,
{
    let mut p = String::from_str(prefix);
    push_i32(&mut p, id);
    p.append(suffix);
    p
}

/// The page of thread `thread_id`, where saving a post leads.
pub fn thread_path(thread_id: i32) -> (p: String)
    ensures
        p@ == "/thread/"@ + decimal::int_to_decimal(thread_id as int),
{
    let p = path_with_id("/thread/", thread_id, "");
    assert(p@ =~= "/thread/"@ + decimal::int_to_decimal(thread_id as int)) by {
        reveal_strlit("");
    }
    p
}

/// The route of a thread's page reads back the id that its path was made
/// from: the segment after `/thread/` parses as `thread_id`.
pub proof fn lemma_thread_path_roundtrip(thread_id: i32)
    ensures
        decimal::spec_parse_i32(("/thread/"@ + decimal::int_to_decimal(thread_id as int)).skip(8))
            == Ok::<i32, decimal::IntErrorKind>(thread_id),
{
    reveal_strlit("/thread/");
    assert(("/thread/"@ + decimal::int_to_decimal(thread_id as int)).skip(8)
        =~= decimal::int_to_decimal(thread_id as int));
    decimal::lemma_decimal_roundtrip(thread_id);
}

} // verus!
