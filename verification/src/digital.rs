//! Digital input and output pins.

use vstd::prelude::*;

pub mod blocking;

verus! {

/// The error type of a digital pin.
pub trait ErrorType {
    /// The error of every operation of the implementing type.
    type Error: core::fmt::Debug;
}

} // verus!
