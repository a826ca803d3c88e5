//! Structural validation: the checks a value passes before any signature is
//! looked at.

use vstd::prelude::*;

verus! {

/// The result of a validation that found the given error, or none.
pub open spec fn validation_result<E>(error: Option<E>) -> Result<(), E> {
    match error {
        Some(e) => Err(e),
        None => Ok(()),
    }
}

/// A value with structural rules of its own.
pub trait BasicValidation {
    /// What a broken rule is reported as.
    type Error;

    /// The first rule that the value breaks, or `None` where it breaks none.
    spec fn validation_error(&self) -> Option<Self::Error>;

    /// Checks the rules in order and reports the first that is broken.
    fn validate_basic(&self) -> (r: Result<(), Self::Error>)
        ensures
            r == validation_result(self.validation_error()),
    ;
}

} // verus!
