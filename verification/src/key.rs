//! The key by which events are ordered and grouped: the calendar day, then
//! the repository's name, byte by byte as the name is encoded.

use vstd::prelude::*;
use vstd::string::*;
use vstd::utf8::*;
use crate::model::Event;
use crate::text::{byte_order, lemma_lex_order_flip, lemma_lex_order_zero, lex_order};

verus! {

/// The bytes of an event's repository name.
pub open spec fn repo_bytes(e: Event) -> Seq<u8> {
    encode_utf8(e.repo_name@)
}

/// Compares two events by day, then by repository name: negative where `a`
/// comes first, zero where neither does, positive where `b` comes first.
pub open spec fn key_order(a: Event, b: Event) -> int {
    if a.day < b.day {
        -1
    } else if a.day > b.day {
        1
    } else {
        lex_order(repo_bytes(a), repo_bytes(b))
    }
}

/// Whether two events fall on the same day in the same repository.
pub open spec fn same_key(a: Event, b: Event) -> bool {
    a.day == b.day && a.repo_name@ == b.repo_name@
}

/// Two events compare as equal exactly when they share day and repository.
pub proof fn lemma_key_order_zero(a: Event, b: Event)
    ensures
        key_order(a, b) == 0 <==> same_key(a, b),
{
    lemma_lex_order_zero(repo_bytes(a), repo_bytes(b));
    encode_utf8_decode_utf8(a.repo_name@);
    encode_utf8_decode_utf8(b.repo_name@);
}

/// Swapping the two events flips the sign of the comparison.
pub proof fn lemma_key_order_flip(a: Event, b: Event)
    ensures
        key_order(a, b) == -key_order(b, a),
{
    lemma_lex_order_flip(repo_bytes(a), repo_bytes(b));
}

/// Compares two events by day, then by repository name; the sign of the
/// result says which comes first.
pub fn event_order(a: &Event, b: &Event) -> (r: i8)
    ensures
        r == key_order(*a, *b),
{
    if a.day < b.day {
        -1
    } else if a.day > b.day {
        1
    } else {
        byte_order(a.repo_name.as_str().as_bytes(), b.repo_name.as_str().as_bytes())
    }
}

} // verus!
