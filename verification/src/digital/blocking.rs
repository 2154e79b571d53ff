//! Blocking digital pins.

use vstd::prelude::*;

use crate::digital::ErrorType;

verus! {

/// A single digital output pin that can be driven high or low.
///
/// The electrical level that results may differ from the level the pin is
/// driven to, for example on an open-drain output: the relations below speak
/// of the pin handle, which is all that this crate sees.
pub trait OutputPin: ErrorType {
    /// Whether [`set_low`](OutputPin::set_low) may take the pin from `pre` to
    /// `post` and return `r`.
    open spec fn set_low_spec(pre: &Self, post: &Self, r: Result<(), Self::Error>) -> bool {
        true
    }

    /// Whether [`set_high`](OutputPin::set_high) may take the pin from `pre`
    /// to `post` and return `r`.
    open spec fn set_high_spec(pre: &Self, post: &Self, r: Result<(), Self::Error>) -> bool {
        true
    }

    /// Drives the pin low.
    fn set_low(&mut self) -> (r: Result<(), Self::Error>)
        ensures
            Self::set_low_spec(old(self), final(self), r),
    ;

    /// Drives the pin high.
    fn set_high(&mut self) -> (r: Result<(), Self::Error>)
        ensures
            Self::set_high_spec(old(self), final(self), r),
    ;
}

} // verus!
