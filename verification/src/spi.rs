//! SPI error classification and the traits of [`blocking`].

use vstd::prelude::*;

pub mod blocking;

verus! {

/// The kinds of failure an SPI operation can report.
///
/// Generic code can react to the kind of a failure without knowing the
/// concrete error type of the hardware underneath.
#[derive(Debug, Copy, Clone, Eq, PartialEq, Hash)]
#[non_exhaustive]
pub enum ErrorKind {
    /// The peripheral receive buffer was overrun.
    Overrun,
    /// Multiple devices on the bus are trying to drive the chip-select pin,
    /// as seen by a device in multi-master mode.
    ModeFault,
    /// Received data does not conform to the peripheral configuration.
    FrameFormat,
    /// Asserting or deasserting the chip-select pin failed.
    ChipSelectFault,
    /// A different error occurred; the error that was classified may hold more.
    Other,
}

/// An error of an SPI operation, which can tell its [`ErrorKind`].
pub trait Error: core::fmt::Debug {
    /// Whether [`kind`](Error::kind) may classify this error as `kind`.
    ///
    /// An implementation whose classification is a function of the error
    /// makes this hold of exactly one kind.
    open spec fn kind_spec(&self, kind: ErrorKind) -> bool {
        true
    }

    /// Classifies the error, so that generic code can branch on it.
    fn kind(&self) -> (kind: ErrorKind)
        ensures
            self.kind_spec(kind),
    ;
}

impl Error for ErrorKind {
    /// A kind classifies as itself.
    open spec fn kind_spec(&self, kind: ErrorKind) -> bool {
        kind == *self
    }

    fn kind(&self) -> (kind: ErrorKind) {
        *self
    }
}

/// The error type of an SPI bus or device.
///
/// It is split off from the capability traits so that they all share it.
pub trait ErrorType {
    /// The error of every operation of the implementing type.
    type Error: Error;
}

impl<T: ErrorType> ErrorType for &mut T {
    type Error = T::Error;
}

} // verus!
