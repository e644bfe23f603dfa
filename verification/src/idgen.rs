//! Identifier generation.
//!
//! Records are keyed by opaque, lexically sortable string identifiers. The
//! generation itself is done by the `libxid` crate; this module declares
//! what the library relies on: a fresh identifier renders as twenty
//! characters drawn from digits and the letters `a` through `v`.

use vstd::prelude::*;

verus! {

/// Number of characters in a rendered identifier.
pub const ID_CHARS: usize = 20;

#[verifier::external_type_specification]
#[verifier::external_body]
pub struct ExGenerator(libxid::Generator);

#[verifier::external_type_specification]
#[verifier::external_body]
pub struct ExId(libxid::ID);

pub assume_specification [ libxid::new_generator ]() -> libxid::Generator;

/// A character that can occur in a rendered identifier: base32hex without
/// padding, so a digit or a lowercase letter up to `v`.
pub open spec fn id_char(c: char) -> bool {
    ('0' <= c && c <= '9') || ('a' <= c && c <= 'v')
}

/// A rendered identifier: exactly [`ID_CHARS`] base32hex characters.
pub open spec fn well_formed_id(s: Seq<char>) -> bool {
    s.len() == ID_CHARS && (forall|i: int| 0 <= i < s.len() ==> id_char(#[trigger] s[i]))
}

/// Relies on `libxid::Generator::new_id`: a fresh identifier, or an error
/// when the system clock reads before the Unix epoch. Nothing is promised
/// about the value; in particular two calls may or may not collide.
#[verifier::external_body]
fn next_id(generator: &libxid::Generator) -> (r: Option<libxid::ID>)
{
    match generator.new_id() {
        Ok(id) => Some(id),
        Err(_) => None,
    }
}

/// Relies on `libxid::ID::encode`: the identifier rendered as exactly
/// twenty base32hex characters (`[0-9a-v]`), printable and usable as a map
/// key or a URL path segment.
#[verifier::external_body]
fn encode_id(id: &libxid::ID) -> (r: String)
    ensures
        well_formed_id(r@),
{
    id.encode()
}

/// Draws a fresh identifier and renders it, reporting `None` when the
/// underlying clock source refuses.
pub fn fresh_id(generator: &libxid::Generator) -> (r: Option<String>)
    ensures
        r matches Some(s) ==> well_formed_id(s@),
{
    match next_id(generator) {
        Some(id) => Some(encode_id(&id)),
        None => None,
    }
}

} // verus!
