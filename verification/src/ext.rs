//! Contracts for the few std functions this crate uses that vstd does not
//! yet specify.

use vstd::prelude::*;

use std::sync::Arc;

verus! {

/// Relies on `Arc::clone`: the clone refers to the same allocation, so it is
/// the same value.
#[verifier::external_body]
pub fn clone_arc<T>(v: &Arc<T>) -> (r: Arc<T>)
    ensures
        r == *v,
{
    Arc::clone(v)
}

/// Relies on `String::push`: appends exactly the given character.
pub assume_specification[ String::push ](s: &mut String, c: char)
    ensures
        final(s)@ == old(s)@.push(c),
;

/// Relies on `char::from_u32`: returns the scalar value with the given code,
/// and `None` exactly for surrogates and codes above the scalar range.
pub assume_specification[ char::from_u32 ](v: u32) -> (r: Option<char>)
    ensures
        r is Some <==> (v < 0xD800 || (0xE000 <= v && v <= 0x10FFFF)),
        r matches Some(c) ==> c == v as char,
;

} // verus!
