use vstd::prelude::*;

verus! {

/// Relies on `std::time::SystemTime::now` and `SystemTime::duration_since`:
/// the wall-clock time as nanoseconds since the Unix epoch, or 0 for a clock
/// set before the epoch. Nothing is promised of the value read.
#[verifier::external_body]
pub(crate) fn clock_now() -> (r: u64) {
    match std::time::SystemTime::now().duration_since(std::time::UNIX_EPOCH) {
        Ok(d) => d.as_nanos() as u64,
        Err(_) => 0,
    }
}

} // verus!
