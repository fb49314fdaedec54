use vstd::prelude::*;

verus! {

/// `std::time::SystemTime`, carried as it is: nothing is claimed of what it holds.
#[verifier::external_type_specification]
#[verifier::external_body]
pub struct ExSystemTime(std::time::SystemTime);

/// Reads the clock by `std::time::SystemTime::now`. Nothing is claimed of the moment
/// that it returns.
#[verifier::external_body]
pub(crate) fn system_time_now() -> (time: std::time::SystemTime) {
    std::time::SystemTime::now()
}

} // verus!
