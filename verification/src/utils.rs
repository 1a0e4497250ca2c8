//! Process-level helpers: the key that one run shares between its sender and
//! its listener.

use vstd::prelude::*;
use crate::key::derive_key;
use crate::key::key_of;

verus! {

/// Namespace for the helpers of a run.
pub struct Utils {}

/// Reads the wall clock through `std::time::SystemTime::now` and gives the
/// milliseconds elapsed since `UNIX_EPOCH`, or `None` where the clock stands
/// before the epoch. Nothing is claimed of the reading.
#[verifier::external_body]
fn clock_millis() -> (elapsed: Option<u128>) {
    std::time::SystemTime::now().duration_since(std::time::UNIX_EPOCH).ok().map(|d| d.as_millis())
}

/// Draws one 32-bit value through `rand::random`. Nothing is claimed of the
/// draw.
#[verifier::external_body]
fn random_word() -> (drawn: u32) {
    rand::random::<u32>()
}

impl Utils {
    /// Derives a fresh key from the current time and a random draw. A clock
    /// that stands before the epoch counts as zero milliseconds.
    pub fn key() -> (key: u128)
        ensures
            exists|time_ms: u128, random: u32| key == key_of(time_ms, random),
    {
        let random: u32 = random_word();
        let time_ms: u128 = match clock_millis() {
            Some(elapsed) => elapsed,
            None => 0,
        };
        let key: u128 = derive_key(time_ms, random);
        assert(key == key_of(time_ms, random));
        key
    }
}

} // verus!
