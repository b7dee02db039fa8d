//! What can go wrong while a file is chosen, read or written.

use std::io::ErrorKind;
use vstd::prelude::*;

verus! {

#[verifier::external_type_specification]
#[verifier::external_body]
pub struct ExErrorKind(ErrorKind);

/// `ErrorKind::clone`: the copy is the same kind.
pub assume_specification[ <ErrorKind as Clone>::clone ](kind: &ErrorKind) -> (copy: ErrorKind)
    ensures
        copy == *kind,
;

/// Why a file request ended without a file.
#[derive(Debug, Clone)]
pub enum Error {
    /// The user closed a dialog without choosing anything.
    DialogClosed,
    /// Reading or writing failed, for the reason the system gave.
    IOFailed(ErrorKind),
}

} // verus!
