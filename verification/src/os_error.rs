//! The operating-system error that failed connections and commands carry.

use vstd::prelude::*;

verus! {

/// `std::io::Error`, carried through as it came from the system call.
#[verifier::external_type_specification]
#[verifier::external_body]
pub struct ExIoError(std::io::Error);

} // verus!
