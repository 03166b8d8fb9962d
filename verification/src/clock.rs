//! The wall clock, as the poll loop reads it.

use vstd::prelude::*;
use std::time::SystemTime;

verus! {

/// Milliseconds since the Unix epoch, or 0 when the clock reads earlier
/// than the epoch.  Relies on `SystemTime::now` and
/// `SystemTime::duration_since`; nothing is promised of the clock's value.
#[verifier::external_body]
pub fn epoch_ms() -> i64 {
    match SystemTime::now().duration_since(SystemTime::UNIX_EPOCH) {
        Ok(d) => d.as_millis() as i64,
        Err(_) => 0,
    }
}

} // verus!
