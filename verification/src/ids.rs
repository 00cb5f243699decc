//! Trusted boundary to uuid: fresh random identifiers for sessions and
//! stored images. Nothing is promised of which value comes back beyond its
//! shape; the callers state what holds whatever was drawn.

use vstd::prelude::*;

verus! {

/// Relies on uuid::Uuid::new_v4: a freshly drawn random session id.
#[verifier::external_body]
pub fn fresh_bonk_id() -> (r: u128) {
    uuid::Uuid::new_v4().as_u128()
}

/// Relies on uuid::Uuid::new_v4 and its hyphenated text form, which is 36
/// characters long.
#[verifier::external_body]
pub fn fresh_image_id() -> (r: String)
    ensures
        r@.len() == 36,
{
    uuid::Uuid::new_v4().to_string()
}

} // verus!
