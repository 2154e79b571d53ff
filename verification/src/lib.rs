//! Hardware abstraction for the Serial Peripheral Interface, with contracts.
//!
//! The crate separates ownership of an SPI *bus* (the shared clock and data
//! lines) from ownership of an SPI *device* (one peripheral on that bus,
//! selected by its chip-select line). Drivers are written against the traits
//! in [`spi::blocking`]; platform code supplies the bus and the chip-select
//! pin.
//!
//! # How the contracts are phrased
//!
//! A bus or a pin is hardware: what an operation does to it is known only to
//! the type that implements the trait. Every trait method therefore comes with
//! a relation, a `spec fn` of the same name with the suffix `_spec`, which the
//! implementation defines and which says which outcomes the operation may
//! have. The relation defaults to `true`, so that an implementation that
//! promises nothing needs to write nothing. The one contract of the method is
//! that its outcome satisfies the relation.
//!
//! Code that is generic over the traits, such as
//! [`spi::blocking::ExclusiveDevice`], states its own contracts relative to
//! those relations: exactly which operations took place, in which order, on
//! which state, and how their results were combined.

pub mod digital;
pub mod spi;
