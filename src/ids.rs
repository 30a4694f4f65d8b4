use vstd::prelude::*;

verus! {

/// The 128-bit value of the UUID that a string spells, if it spells one.
pub uninterp spec fn parsed_uuid(s: Seq<char>) -> Option<u128>;

/// Relies on uuid::Uuid::parse_str: the string's UUID, as its 128-bit value,
/// or nothing where the string is no UUID. Empty text is never one.
#[verifier::external_body]
pub(crate) fn parse_id(s: &str) -> (r: Option<u128>)
    ensures
        r == parsed_uuid(s@),
        s@.len() == 0 ==> r is None,
{
    uuid::Uuid::parse_str(s).ok().map(|u| u.as_u128())
}

/// Relies on uuid::Uuid::new_v4: a fresh random identifier. Nothing is promised
/// of its value.
#[verifier::external_body]
pub(crate) fn fresh_id() -> (r: u128) {
    uuid::Uuid::new_v4().as_u128()
}

} // verus!
