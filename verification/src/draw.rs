//! The random and time-dependent draws that a record is made of. Every function here
//! hands a call to `rand`, `fake`, `uuid` or `chrono`; its contract is taken on trust
//! from that crate and says only what holds of every outcome.

use vstd::prelude::*;
use crate::product::Timestamp;

verus! {

/// Draws a number with `rand::Rng::gen_range` from `rand`'s thread-local generator,
/// over the range from `low` up to, but not including, `high`.
///
/// Trusted: `rand` documents that the value lies in the range. It panics on an empty
/// range, which the precondition leaves out.
#[verifier::external_body]
pub(crate) fn random_in_range(low: u32, high: u32) -> (value: u32)
    requires
        low < high,
    ensures
        low <= value < high,
{
    rand::Rng::gen_range(&mut rand::thread_rng(), low..high)
}

/// Picks one item with `rand::seq::SliceRandom::choose` and `rand`'s thread-local
/// generator.
///
/// Trusted: `rand` returns `None` for an empty slice and otherwise a reference to one
/// of the slice's elements, which is copied out here.
#[verifier::external_body]
pub(crate) fn pick_one<T: Copy>(items: &Vec<T>) -> (chosen: Option<T>)
    ensures
        items@.len() == 0 ==> chosen is None,
        items@.len() > 0 ==> chosen is Some && items@.contains(chosen->0),
{
    rand::seq::SliceRandom::choose(items.as_slice(), &mut rand::thread_rng()).copied()
}

/// Draws an English buzzword with `fake::faker::company::en::Buzzword`.
///
/// Trusted, with nothing claimed of the text.
#[verifier::external_body]
pub(crate) fn fake_buzzword() -> String {
    fake::Fake::fake(&fake::faker::company::en::Buzzword())
}

/// Draws an English company name with `fake::faker::company::en::CompanyName`.
///
/// Trusted, with nothing claimed of the text.
#[verifier::external_body]
pub(crate) fn fake_company_name() -> String {
    fake::Fake::fake(&fake::faker::company::en::CompanyName())
}

/// Draws an English sentence with `fake::faker::lorem::en::Sentence`, of at least
/// `low` and fewer than `high` words.
///
/// Trusted, with nothing claimed of the text. `fake` draws the number of words from
/// the range and panics on an empty one, which the precondition leaves out.
#[verifier::external_body]
pub(crate) fn fake_sentence(low: usize, high: usize) -> String
    requires
        low < high,
{
    fake::Fake::fake(&fake::faker::lorem::en::Sentence(low..high))
}

/// Draws a random identifier with `uuid::Uuid::new_v4` and packs its sixteen bytes
/// into one number with `uuid::Uuid::as_u128`.
///
/// Trusted, with nothing claimed of the value: two draws may coincide.
#[verifier::external_body]
pub(crate) fn new_identifier() -> u128 {
    uuid::Uuid::new_v4().as_u128()
}

/// Reads the clock with `chrono::Utc::now` and takes the moment apart with
/// `timestamp` and `timestamp_subsec_nanos`.
///
/// Trusted, with nothing claimed of the value.
#[verifier::external_body]
pub(crate) fn utc_now() -> Timestamp {
    let now = chrono::Utc::now();
    Timestamp { seconds: now.timestamp(), nanoseconds: now.timestamp_subsec_nanos() }
}

} // verus!
