//! What can go wrong.

use vstd::prelude::*;

verus! {

/// `std::io::Error`, carried through as it is.
#[verifier::external_type_specification]
#[verifier::external_body]
pub struct ExIoError(std::io::Error);

/// A failure of the widget.
#[derive(Debug)]
pub enum ScrollerError {
    /// The terminal could not be read, written or measured, or its size
    /// cannot be used.
    IO(std::io::Error),
    /// A lock around the widget was poisoned by a failure elsewhere.
    RwLockPoisoned,
}

/// `std::io::Error::new` with the kind `InvalidInput`. Trusted; nothing is
/// claimed of the error that comes back.
#[verifier::external_body]
pub(crate) fn invalid_input(message: &str) -> (error: std::io::Error) {
    std::io::Error::new(std::io::ErrorKind::InvalidInput, message)
}

} // verus!
