//! Blocking SPI API
//!
//! # Bus vs Device
//!
//! SPI allows sharing a single bus between many SPI devices. The SCK, MOSI and MISO lines are
//! wired in parallel to all the devices, and each device gets a dedicated chip-select (CS) line
//! from the MCU.
//!
//! CS is usually active-low. When CS is high (not asserted), SPI devices ignore all incoming data, and
//! don't drive MISO. When CS is low (asserted), the device is active: reacts to incoming data on MOSI and
//! drives MISO with the response data. By asserting one CS or another, the MCU can choose to which
//! SPI device it "talks" to on the (possibly shared) bus.
//!
//! A driver for one device has to talk to its device without interfering with the drivers of
//! the other devices on the bus. For this there are two kinds of SPI traits: **SPI bus** and
//! **SPI device**.
//!
//! ## Bus
//!
//! SPI bus traits represent **exclusive ownership** over the whole SPI bus. This is usually the entire
//! SPI MCU peripheral, plus the SCK, MOSI and MISO pins.
//!
//! Owning an instance of an SPI bus guarantees exclusive access, this is, we have the guarantee no other
//! piece of code will try to use the bus while we own it.
//!
//! There's 3 bus traits, depending on the bus capabilities.
//!
//! - [`SpiBus`]: Read-write access. This is the most commonly used.
//! - [`SpiBusRead`]: Read-only access, for example a bus with a MISO pin but no MOSI pin.
//! - [`SpiBusWrite`]: Write-only access, for example a bus with a MOSI pin but no MISO pin.
//!
//! ## Device
//!
//! [`SpiDevice`] represents **ownership over a single SPI device selected by a CS pin** in a (possibly shared) bus. This is typically:
//!
//! - Exclusive ownership of the **CS pin**.
//! - Access to the **underlying SPI bus**. If shared, it'll be behind some kind of lock/mutex.
//!
//! An [`SpiDevice`] allows initiating [transactions](SpiDevice::transaction) against the target device on the bus. A transaction
//! consists of asserting CS, then doing one or more transfers, then deasserting CS. For the entire duration of the transaction, the [`SpiDevice`]
//! implementation will ensure no other transaction can be opened on the same bus. This is the key that allows correct sharing of the bus.
//!
//! The capabilities of the bus (read-write, read-only or write-only) are determined by which of the [`SpiBus`], [`SpiBusRead`] [`SpiBusWrite`] traits
//! are implemented for the [`Bus`](SpiDevice::Bus) associated type.
//!
//! # For driver authors
//!
//! If your device **has a CS pin**, use [`SpiDevice`]. Do not manually manage the CS pin, the [`SpiDevice`] implementation will do it for you.
//! Add bounds like `where T::Bus: SpiBus`, `where T::Bus: SpiBusRead`, `where T::Bus: SpiBusWrite` to specify the kind of access you need.
//!
//! If your device **does not have a CS pin**, or you use SPI to bit-bang another protocol, use
//! [`SpiBus`] (or [`SpiBusRead`], [`SpiBusWrite`]). Requiring the bus disallows sharing it.
//!
//! # For HAL authors
//!
//! HALs **must** implement [`SpiBus`], [`SpiBusRead`] and [`SpiBusWrite`]. Users can combine the bus together with the CS pin (which should
//! implement [`OutputPin`]) using HAL-independent [`SpiDevice`] implementations such as [`ExclusiveDevice`].
//!
//! HALs may additionally implement [`SpiDevice`] to **take advantage of hardware CS management**.
//!
//! HALs **must not** add infrastructure for sharing at the [`SpiBus`] level. User code owning a [`SpiBus`] must have the guarantee
//! of exclusive access.
//!
//! # Reading the contracts
//!
//! Each bus operation has a relation that its implementation defines, such
//! as [`SpiBusWrite::write_spec`]. A body of a transaction is described by a
//! [`BusOp`]: a predicate on the bus before, the bus after, and the result.
//! [`one_write`], [`one_read`], [`one_transfer`] and [`one_transfer_in_place`]
//! describe the bodies that do a single bus operation.
//!
//! Each device has a relation too, [`SpiDevice::transaction_spec`], which
//! says what a transaction around a given body may do. For
//! [`ExclusiveDevice`] it is [`ExclusiveDevice::transacts`]: chip select is
//! driven low, the body runs, chip select is driven high, each once and in
//! this order; or driving chip select low fails and nothing else happens.
//!
//! To learn what a call of [`SpiDevice::transaction`] with a closure `f` did,
//! state the relation with a description that `f` meets: the contract
//! holds for every such description.

use vstd::prelude::*;

use crate::digital::blocking::OutputPin;
use crate::spi::{Error, ErrorKind, ErrorType};

verus! {

/// What a piece of code may do with a bus of type `B`: whether it may take the
/// bus from a first state to a second one and return a given result.
pub type BusOp<B, R> = spec_fn(B, B, Result<R, <B as ErrorType>::Error>) -> bool;

/// A result without its value: whether the operation succeeded, and the error
/// if it did not.
pub open spec fn status<R, E>(r: Result<R, E>) -> Result<(), E> {
    match r {
        Ok(_) => Ok(()),
        Err(e) => Err(e),
    }
}

/// Whether `f` can be called on a bus in any state.
pub open spec fn accepts_every_bus<B, O, F: FnOnce(&mut B) -> O>(f: F) -> bool {
    forall|bus: &mut B| call_requires(f, (bus,))
}

/// Whether `out` is something that `f` may return, on some bus.
pub open spec fn may_return<B, O, F: FnOnce(&mut B) -> O>(f: F, out: O) -> bool {
    exists|bus: &mut B| call_ensures(f, (bus,), out)
}

/// A result that holds no value is its own status.
pub proof fn lemma_status_of_unit<E>(r: Result<(), E>)
    ensures
        status(r) == r,
{
    match r {
        Ok(u) => {
            assert(u == ());
        },
        Err(_) => {},
    }
}

/// A success that holds no value is `Ok(())`.
pub proof fn lemma_ok_of_unit<E>(r: Result<(), E>)
    requires
        r is Ok,
    ensures
        r == Ok::<(), E>(()),
{
    match r {
        Ok(u) => {
            assert(u == ());
        },
        Err(_) => {},
    }
}

/// SPI device trait
///
/// SpiDevice represents ownership over a single SPI device on a (possibly shared) bus, selected
/// with a CS pin.
///
/// See the [module-level documentation](self) for important usage information.
pub trait SpiDevice: ErrorType {
    /// SPI Bus type for this device.
    type Bus: ErrorType;

    /// Whether a transaction may take the device from `pre` to `post` and end
    /// with `res`, given a body that behaves as `body` says.
    ///
    /// The relation is stated for bodies that return no value. A transaction
    /// whose body returns one obeys it on the [`status`] of the results, and
    /// hands the value through.
    ///
    /// An implementation that does not define the relation promises nothing
    /// of the state of its device.
    open spec fn transaction_spec(
        pre: &Self,
        post: &Self,
        body: BusOp<Self::Bus, ()>,
        res: Result<(), Self::Error>,
    ) -> bool {
        true
    }

    /// Perform a transaction against the device.
    ///
    /// - Locks the bus
    /// - Asserts the CS (Chip Select) pin.
    /// - Calls `f` with an exclusive reference to the bus, which can then be used to do transfers against the device.
    /// - Deasserts the CS pin.
    /// - Unlocks the bus.
    ///
    /// The lock mechanism is implementation-defined. The only requirement is it must prevent two
    /// transactions from executing concurrently against the same bus. Examples of implementations are:
    /// critical sections, blocking mutexes, or returning an error or panicking if the bus is already busy.
    ///
    /// # Contract
    ///
    /// `f` must be callable on the bus whatever state it is in.
    ///
    /// A value that the transaction returns is one that `f` returned. For
    /// every description `body` that `f` meets, the transaction obeys
    /// [`transaction_spec`](SpiDevice::transaction_spec) with that body.
    fn transaction<R, F>(&mut self, f: F) -> (res: Result<R, Self::Error>) where
        F: FnOnce(&mut Self::Bus) -> Result<R, <Self::Bus as ErrorType>::Error>,

        requires
            accepts_every_bus(f),
        ensures
            res matches Ok(v) ==> may_return(f, Ok::<R, <Self::Bus as ErrorType>::Error>(v)),
            forall|body: BusOp<Self::Bus, ()>|
                (forall|bus: &mut Self::Bus, r: Result<R, <Self::Bus as ErrorType>::Error>|
                    call_ensures(f, (bus,), r) ==> body(*bus, *final(bus), status(r)))
                    ==> #[trigger] Self::transaction_spec(old(self), final(self), body, status(res)),
    ;

    /// Do a write within a transaction.
    ///
    /// This is a convenience method equivalent to `device.transaction(|bus| bus.write(buf))`.
    ///
    /// See also: [`SpiDevice::transaction`], [`SpiBusWrite::write`]
    fn write(&mut self, buf: &[u8]) -> (res: Result<(), Self::Error>) where Self::Bus: SpiBusWrite
        ensures
            Self::transaction_spec(old(self), final(self), one_write::<Self::Bus>(buf@), res),
    {
        let res = self.transaction(
            |bus: &mut Self::Bus| -> (r: Result<(), <Self::Bus as ErrorType>::Error>)
                ensures
                    <Self::Bus as SpiBusWrite>::write_spec(old(bus), final(bus), buf@, r)
                { bus.write(buf) },
        );
        proof {
            lemma_status_of_unit_results::<Self::Error>();
            lemma_status_of_unit_results::<<Self::Bus as ErrorType>::Error>();
        }
        res
    }

    /// Do a read within a transaction.
    ///
    /// This is a convenience method equivalent to `device.transaction(|bus| bus.read(buf))`.
    ///
    /// See also: [`SpiDevice::transaction`], [`SpiBusRead::read`]
    fn read(&mut self, buf: &mut [u8]) -> (res: Result<(), Self::Error>) where
        Self::Bus: SpiBusRead,

        ensures
            Self::transaction_spec(
                old(self),
                final(self),
                one_read::<Self::Bus>(old(buf)@, final(buf)@),
                res,
            ),
            res is Ok ==> final(buf)@.len() == old(buf)@.len(),
    {
        let ghost before = buf@;
        let ghost after = final(buf)@;
        let res = self.transaction(
            move |bus: &mut Self::Bus| -> (r: Result<(), <Self::Bus as ErrorType>::Error>)
                ensures
                    <Self::Bus as SpiBusRead>::read_spec(old(bus), final(bus), before, after, r)
                        && after.len() == before.len()
                {
                    // The closure takes the borrow of the buffer for itself.
                    let buf = buf;
                    bus.read(buf)
                },
        );
        proof {
            lemma_status_of_unit_results::<Self::Error>();
            lemma_status_of_unit_results::<<Self::Bus as ErrorType>::Error>();
        }
        res
    }

    /// Do a transfer within a transaction.
    ///
    /// This is a convenience method equivalent to `device.transaction(|bus| bus.transfer(read, write))`.
    ///
    /// See also: [`SpiDevice::transaction`], [`SpiBus::transfer`]
    fn transfer(&mut self, read: &mut [u8], write: &[u8]) -> (res: Result<(), Self::Error>) where
        Self::Bus: SpiBus,

        ensures
            Self::transaction_spec(
                old(self),
                final(self),
                one_transfer::<Self::Bus>(old(read)@, final(read)@, write@),
                res,
            ),
            res is Ok ==> final(read)@.len() == old(read)@.len(),
    {
        let ghost before = read@;
        let ghost after = final(read)@;
        let res = self.transaction(
            move |bus: &mut Self::Bus| -> (r: Result<(), <Self::Bus as ErrorType>::Error>)
                ensures
                    <Self::Bus as SpiBus>::transfer_spec(
                        old(bus),
                        final(bus),
                        before,
                        after,
                        write@,
                        r,
                    ) && after.len() == before.len()
                {
                    // The closure takes the borrow of the buffer for itself.
                    let read = read;
                    bus.transfer(read, write)
                },
        );
        proof {
            lemma_status_of_unit_results::<Self::Error>();
            lemma_status_of_unit_results::<<Self::Bus as ErrorType>::Error>();
        }
        res
    }

    /// Do an in-place transfer within a transaction.
    ///
    /// This is a convenience method equivalent to `device.transaction(|bus| bus.transfer_in_place(buf))`.
    ///
    /// See also: [`SpiDevice::transaction`], [`SpiBus::transfer_in_place`]
    fn transfer_in_place(&mut self, buf: &mut [u8]) -> (res: Result<(), Self::Error>) where
        Self::Bus: SpiBus,

        ensures
            Self::transaction_spec(
                old(self),
                final(self),
                one_transfer_in_place::<Self::Bus>(old(buf)@, final(buf)@),
                res,
            ),
            res is Ok ==> final(buf)@.len() == old(buf)@.len(),
    {
        let ghost before = buf@;
        let ghost after = final(buf)@;
        let res = self.transaction(
            move |bus: &mut Self::Bus| -> (r: Result<(), <Self::Bus as ErrorType>::Error>)
                ensures
                    <Self::Bus as SpiBus>::transfer_in_place_spec(
                        old(bus),
                        final(bus),
                        before,
                        after,
                        r,
                    ) && after.len() == before.len()
                {
                    // The closure takes the borrow of the buffer for itself.
                    let buf = buf;
                    bus.transfer_in_place(buf)
                },
        );
        proof {
            lemma_status_of_unit_results::<Self::Error>();
            lemma_status_of_unit_results::<<Self::Bus as ErrorType>::Error>();
        }
        res
    }
}

impl<T: SpiDevice> SpiDevice for &mut T {
    type Bus = T::Bus;

    /// A borrowed device transacts as the device does.
    open spec fn transaction_spec(
        pre: &Self,
        post: &Self,
        body: BusOp<Self::Bus, ()>,
        res: Result<(), Self::Error>,
    ) -> bool {
        T::transaction_spec(&**pre, &**post, body, res)
    }

    fn transaction<R, F>(&mut self, f: F) -> (res: Result<R, Self::Error>) where
        F: FnOnce(&mut Self::Bus) -> Result<R, <Self::Bus as ErrorType>::Error>,
     {
        T::transaction(self, f)
    }
}

/// Every result that holds no value is its own status.
proof fn lemma_status_of_unit_results<E>()
    ensures
        forall|r: Result<(), E>| #[trigger] status(r) == r,
{
    assert forall|r: Result<(), E>| #[trigger] status(r) == r by {
        lemma_status_of_unit(r);
    }
}

/// The body of a transaction that does one [`write`](SpiBusWrite::write) of
/// `words` on the bus and nothing else.
pub open spec fn one_write<B: SpiBusWrite>(words: Seq<u8>) -> BusOp<B, ()> {
    |pre: B, post: B, r: Result<(), B::Error>| B::write_spec(&pre, &post, words, r)
}

/// The body of a transaction that does one [`read`](SpiBusRead::read) on the
/// bus and nothing else, into a buffer that holds `before` and then `after`.
///
/// The buffer keeps its length.
pub open spec fn one_read<B: SpiBusRead>(before: Seq<u8>, after: Seq<u8>) -> BusOp<B, ()> {
    |pre: B, post: B, r: Result<(), B::Error>|
        B::read_spec(&pre, &post, before, after, r) && after.len() == before.len()
}

/// The body of a transaction that does one [`transfer`](SpiBus::transfer) of
/// `write` on the bus and nothing else, into a read buffer that holds
/// `read_before` and then `read_after`.
///
/// The two buffers may differ in length, and either may be empty. The read
/// buffer keeps its length.
pub open spec fn one_transfer<B: SpiBus>(
    read_before: Seq<u8>,
    read_after: Seq<u8>,
    write: Seq<u8>,
) -> BusOp<B, ()> {
    |pre: B, post: B, r: Result<(), B::Error>|
        B::transfer_spec(&pre, &post, read_before, read_after, write, r) && read_after.len()
            == read_before.len()
}

/// The body of a transaction that does one
/// [`transfer_in_place`](SpiBus::transfer_in_place) on the bus and nothing
/// else, on a buffer that holds `before` and then `after`.
///
/// The buffer keeps its length: it holds one received word for each word sent.
pub open spec fn one_transfer_in_place<B: SpiBus>(before: Seq<u8>, after: Seq<u8>) -> BusOp<
    B,
    (),
> {
    |pre: B, post: B, r: Result<(), B::Error>|
        B::transfer_in_place_spec(&pre, &post, before, after, r) && after.len() == before.len()
}

/// Read-only SPI bus
pub trait SpiBusRead<Word: Copy = u8>: ErrorType {
    /// Whether [`read`](SpiBusRead::read) may take the bus from `pre` to
    /// `post`, turn a buffer that holds `before` into one that holds `after`,
    /// and return `r`.
    open spec fn read_spec(
        pre: &Self,
        post: &Self,
        before: Seq<Word>,
        after: Seq<Word>,
        r: Result<(), Self::Error>,
    ) -> bool {
        true
    }

    /// Reads `words` from the slave.
    ///
    /// The word value sent on MOSI during reading is implementation-defined,
    /// typically `0x00`, `0xFF`, or configurable.
    ///
    /// The buffer may have any length, and keeps it.
    fn read(&mut self, words: &mut [Word]) -> (r: Result<(), Self::Error>)
        ensures
            Self::read_spec(old(self), final(self), old(words)@, final(words)@, r),
            final(words)@.len() == old(words)@.len(),
    ;
}

impl<T: SpiBusRead<Word>, Word: Copy> SpiBusRead<Word> for &mut T {
    /// A borrowed bus reads as the bus does.
    open spec fn read_spec(
        pre: &Self,
        post: &Self,
        before: Seq<Word>,
        after: Seq<Word>,
        r: Result<(), Self::Error>,
    ) -> bool {
        T::read_spec(&**pre, &**post, before, after, r)
    }

    fn read(&mut self, words: &mut [Word]) -> (r: Result<(), Self::Error>) {
        T::read(self, words)
    }
}

/// Write-only SPI bus
pub trait SpiBusWrite<Word: Copy = u8>: ErrorType {
    /// Whether [`write`](SpiBusWrite::write) of `words` may take the bus from
    /// `pre` to `post` and return `r`.
    open spec fn write_spec(
        pre: &Self,
        post: &Self,
        words: Seq<Word>,
        r: Result<(), Self::Error>,
    ) -> bool {
        true
    }

    /// Writes `words` to the slave, ignoring all the incoming words
    fn write(&mut self, words: &[Word]) -> (r: Result<(), Self::Error>)
        ensures
            Self::write_spec(old(self), final(self), words@, r),
    ;
}

impl<T: SpiBusWrite<Word>, Word: Copy> SpiBusWrite<Word> for &mut T {
    /// A borrowed bus writes as the bus does.
    open spec fn write_spec(
        pre: &Self,
        post: &Self,
        words: Seq<Word>,
        r: Result<(), Self::Error>,
    ) -> bool {
        T::write_spec(&**pre, &**post, words, r)
    }

    fn write(&mut self, words: &[Word]) -> (r: Result<(), Self::Error>) {
        T::write(self, words)
    }
}

/// Read-write SPI bus
///
/// SpiBus represents **exclusive ownership** over the whole SPI bus, with SCK, MOSI and MISO pins.
///
/// See the [module-level documentation](self) for important information on SPI Bus vs Device traits.
pub trait SpiBus<Word: Copy = u8>: SpiBusRead<Word> + SpiBusWrite<Word> {
    /// Whether [`transfer`](SpiBus::transfer) of `write` may take the bus
    /// from `pre` to `post`, turn a read buffer that holds `read_before` into
    /// one that holds `read_after`, and return `r`.
    open spec fn transfer_spec(
        pre: &Self,
        post: &Self,
        read_before: Seq<Word>,
        read_after: Seq<Word>,
        write: Seq<Word>,
        r: Result<(), Self::Error>,
    ) -> bool {
        true
    }

    /// Whether [`transfer_in_place`](SpiBus::transfer_in_place) may take the
    /// bus from `pre` to `post`, turn a buffer that holds `before` into one
    /// that holds `after`, and return `r`.
    open spec fn transfer_in_place_spec(
        pre: &Self,
        post: &Self,
        before: Seq<Word>,
        after: Seq<Word>,
        r: Result<(), Self::Error>,
    ) -> bool {
        true
    }

    /// Writes and reads simultaneously. `write` is written to the slave on MOSI and
    /// words received on MISO are stored in `read`.
    ///
    /// It is allowed for `read` and `write` to have different lengths, even zero length.
    /// The transfer runs for `max(read.len(), write.len())` words. If `read` is shorter,
    /// incoming words after `read` has been filled will be discarded. If `write` is shorter,
    /// the value of words sent in MOSI after all `write` has been sent is implementation-defined,
    /// typically `0x00`, `0xFF`, or configurable.
    ///
    /// Whatever the two lengths are, `read` keeps its own.
    fn transfer(&mut self, read: &mut [Word], write: &[Word]) -> (r: Result<(), Self::Error>)
        ensures
            Self::transfer_spec(old(self), final(self), old(read)@, final(read)@, write@, r),
            final(read)@.len() == old(read)@.len(),
    ;

    /// Writes and reads simultaneously. The contents of `words` are
    /// written to the slave, and the received words are stored into the same
    /// `words` buffer, overwriting it.
    ///
    /// The buffer keeps its length: one word is stored for each word written.
    fn transfer_in_place(&mut self, words: &mut [Word]) -> (r: Result<(), Self::Error>)
        ensures
            Self::transfer_in_place_spec(old(self), final(self), old(words)@, final(words)@, r),
            final(words)@.len() == old(words)@.len(),
    ;
}

impl<T: SpiBus<Word>, Word: Copy> SpiBus<Word> for &mut T {
    /// A borrowed bus transfers as the bus does.
    open spec fn transfer_spec(
        pre: &Self,
        post: &Self,
        read_before: Seq<Word>,
        read_after: Seq<Word>,
        write: Seq<Word>,
        r: Result<(), Self::Error>,
    ) -> bool {
        T::transfer_spec(&**pre, &**post, read_before, read_after, write, r)
    }

    /// A borrowed bus transfers in place as the bus does.
    open spec fn transfer_in_place_spec(
        pre: &Self,
        post: &Self,
        before: Seq<Word>,
        after: Seq<Word>,
        r: Result<(), Self::Error>,
    ) -> bool {
        T::transfer_in_place_spec(&**pre, &**post, before, after, r)
    }

    fn transfer(&mut self, read: &mut [Word], write: &[Word]) -> (r: Result<(), Self::Error>) {
        T::transfer(self, read, write)
    }

    fn transfer_in_place(&mut self, words: &mut [Word]) -> (r: Result<(), Self::Error>) {
        T::transfer_in_place(self, words)
    }
}

/// Error type for [`ExclusiveDevice`] operations.
#[derive(Copy, Clone, Eq, PartialEq, Debug)]
pub enum ExclusiveDeviceError<BUS, CS> {
    /// An inner SPI bus operation failed
    Spi(BUS),
    /// Asserting or deasserting CS failed
    Cs(CS),
}

impl<BUS, CS> Error for ExclusiveDeviceError<BUS, CS> where
    BUS: Error + core::fmt::Debug,
    CS: core::fmt::Debug,
 {
    /// A bus error keeps the kind that the bus gives it; a chip-select
    /// failure is always a chip-select fault.
    open spec fn kind_spec(&self, kind: ErrorKind) -> bool {
        match self {
            Self::Spi(e) => e.kind_spec(kind),
            Self::Cs(_) => kind == ErrorKind::ChipSelectFault,
        }
    }

    fn kind(&self) -> (kind: ErrorKind) {
        match self {
            Self::Spi(e) => e.kind(),
            Self::Cs(_) => ErrorKind::ChipSelectFault,
        }
    }
}

/// What a transaction reports once its body has returned `body` and chip
/// select has been released with `released`: a failure of the body first,
/// then a failure to release, and the body's value if there is neither.
pub open spec fn transaction_result<R, BUS, CS>(
    body: Result<R, BUS>,
    released: Result<(), CS>,
) -> Result<R, ExclusiveDeviceError<BUS, CS>> {
    match body {
        Err(e) => Err(ExclusiveDeviceError::Spi(e)),
        Ok(v) => match released {
            Err(e) => Err(ExclusiveDeviceError::Cs(e)),
            Ok(()) => Ok(v),
        },
    }
}

/// Forgetting the value before or after the results are combined comes to
/// the same.
proof fn lemma_status_of_transaction_result<R, BUS, CS>(
    body: Result<R, BUS>,
    released: Result<(), CS>,
)
    ensures
        status(transaction_result(body, released)) == transaction_result(status(body), released),
{
}

impl<BUS, CS> ExclusiveDeviceError<BUS, CS> {
    /// Combines the result of a transaction's body with the result of
    /// releasing chip select into the result of the transaction.
    ///
    /// A bus failure is reported even if releasing chip select failed too. A
    /// value that the body returned is dropped if chip select could not be
    /// released.
    pub fn resolve<R>(body: Result<R, BUS>, released: Result<(), CS>) -> (res: Result<R, Self>)
        ensures
            res == transaction_result(body, released),
    {
        match body {
            Err(e) => Err(ExclusiveDeviceError::Spi(e)),
            Ok(v) => match released {
                Err(e) => Err(ExclusiveDeviceError::Cs(e)),
                Ok(()) => Ok(v),
            },
        }
    }
}

/// [`SpiDevice`] implementation with exclusive access to the bus (not shared).
///
/// This is the most straightforward way of obtaining an [`SpiDevice`] from an [`SpiBus`],
/// ideal for when no sharing is required (only one SPI device is present on the bus).
///
/// The device owns its bus and its chip-select pin, so nothing else can reach
/// them while it lives, and a transaction needs no lock.
pub struct ExclusiveDevice<BUS, CS> {
    bus: BUS,
    cs: CS,
}

impl<BUS, CS> ExclusiveDevice<BUS, CS> {
    /// The bus that the device owns.
    pub closed spec fn bus(&self) -> BUS {
        self.bus
    }

    /// The chip-select pin that the device owns.
    pub closed spec fn cs(&self) -> CS {
        self.cs
    }

    /// Create a new ExclusiveDevice
    ///
    /// The pin is taken as it is: it is for the caller to hand over a pin
    /// that does not select the device.
    pub fn new(bus: BUS, cs: CS) -> (dev: Self)
        ensures
            dev.bus() == bus,
            dev.cs() == cs,
    {
        Self { bus, cs }
    }
}

impl<BUS, CS> ExclusiveDevice<BUS, CS> where BUS: ErrorType, CS: OutputPin {
    /// A transaction that ends before its body: driving chip select low
    /// takes the pin from its state in `pre` to its state in `post` and fails
    /// with `e`, and the bus is left as it was.
    pub open spec fn select_fails(pre: &Self, post: &Self, e: CS::Error) -> bool {
        &&& CS::set_low_spec(&pre.cs(), &post.cs(), Err(e))
        &&& post.bus() == pre.bus()
    }

    /// A transaction that reaches its body: chip select is driven low, which
    /// succeeds; the body takes the bus from its state in `pre` to its state
    /// in `post` and returns `ran`; chip select is driven high from the state
    /// that driving it low left, which returns `released` and leaves the pin
    /// in its state in `post`.
    pub open spec fn runs<R>(
        pre: &Self,
        post: &Self,
        body: BusOp<BUS, R>,
        ran: Result<R, BUS::Error>,
        released: Result<(), CS::Error>,
    ) -> bool {
        exists|selected: CS|
            {
                &&& #[trigger] CS::set_low_spec(&pre.cs(), &selected, Ok(()))
                &&& body(pre.bus(), post.bus(), ran)
                &&& CS::set_high_spec(&selected, &post.cs(), released)
            }
    }

    /// Whether a transaction whose body behaves as `body` may take the device
    /// from `pre` to `post` and return `res`.
    ///
    /// Either selecting the device fails, which is what is returned; or the
    /// body runs once, chip select is released once, whatever the body
    /// returned, and the result is their [`transaction_result`].
    pub open spec fn transacts<R>(
        pre: &Self,
        post: &Self,
        body: BusOp<BUS, R>,
        res: Result<R, ExclusiveDeviceError<BUS::Error, CS::Error>>,
    ) -> bool {
        ||| exists|e: CS::Error| #[trigger]
                Self::select_fails(pre, post, e) && res == Err::<
                    R,
                    ExclusiveDeviceError<BUS::Error, CS::Error>,
                >(ExclusiveDeviceError::Cs(e))
        ||| exists|ran: Result<R, BUS::Error>, released: Result<(), CS::Error>| #[trigger]
                Self::runs(pre, post, body, ran, released) && res == transaction_result(
                    ran,
                    released,
                )
    }

    /// Where neither chip select nor the body can fail, a transaction
    /// succeeds: it returns a value that its body returned on the device's
    /// bus, and it leaves chip select as a successful `set_high` leaves it.
    pub proof fn lemma_transaction_succeeds<R>(
        pre: Self,
        post: Self,
        body: BusOp<BUS, R>,
        res: Result<R, ExclusiveDeviceError<BUS::Error, CS::Error>>,
    )
        requires
            Self::transacts(&pre, &post, body, res),
            forall|low: CS, r: Result<(), CS::Error>| #[trigger]
                CS::set_low_spec(&pre.cs(), &low, r) ==> r is Ok,
            forall|low: CS, high: CS, r: Result<(), CS::Error>| #[trigger]
                CS::set_high_spec(&low, &high, r) ==> r is Ok,
            forall|before: BUS, after: BUS, r: Result<R, BUS::Error>| #[trigger]
                body(before, after, r) ==> r is Ok,
        ensures
            res is Ok,
            Self::runs(&pre, &post, body, Ok(res->Ok_0), Ok(())),
            exists|selected: CS| #[trigger] CS::set_high_spec(&selected, &post.cs(), Ok(())),
    {
        let (ran, released) = choose|ran: Result<R, BUS::Error>, released: Result<(), CS::Error>|
         #[trigger]
            Self::runs(&pre, &post, body, ran, released) && res == transaction_result(
                ran,
                released,
            );
        let selected = choose|selected: CS|
            {
                &&& #[trigger] CS::set_low_spec(&pre.cs(), &selected, Ok(()))
                &&& body(pre.bus(), post.bus(), ran)
                &&& CS::set_high_spec(&selected, &post.cs(), released)
            };
        lemma_ok_of_unit(released);
    }

    /// A failure of the body is what the transaction reports, whether or
    /// not chip select could be released afterwards, and it is classified as
    /// the bus classifies it. Chip select is driven high once the body has
    /// failed.
    ///
    /// Where every outcome of the body is a failure, so is every outcome of
    /// the transaction. A bus error that it reports is one that the body
    /// returned, in a run that went on to release chip select. A chip-select
    /// error that it reports comes from selecting the device, before the body
    /// could run.
    pub proof fn lemma_bus_failure_is_reported<R>(
        pre: Self,
        post: Self,
        body: BusOp<BUS, R>,
        res: Result<R, ExclusiveDeviceError<BUS::Error, CS::Error>>,
    )
        requires
            Self::transacts(&pre, &post, body, res),
            forall|before: BUS, after: BUS, r: Result<R, BUS::Error>| #[trigger]
                body(before, after, r) ==> r is Err,
        ensures
            match res {
                Ok(_) => false,
                Err(ExclusiveDeviceError::Spi(e)) => {
                    &&& exists|released: Result<(), CS::Error>| #[trigger]
                        Self::runs(&pre, &post, body, Err(e), released)
                    &&& forall|kind: ErrorKind|
                        ExclusiveDeviceError::<BUS::Error, CS::Error>::Spi(e).kind_spec(kind)
                            == e.kind_spec(kind)
                },
                Err(ExclusiveDeviceError::Cs(e)) => Self::select_fails(&pre, &post, e),
            },
    {
    }

    /// Where chip select cannot be driven low, the body is not called: the
    /// transaction leaves the bus as it was, whatever the body would have
    /// done, and reports the failure of the pin, which classifies as a
    /// chip-select fault.
    pub proof fn lemma_select_failure_skips_body<R>(
        pre: Self,
        post: Self,
        body: BusOp<BUS, R>,
        res: Result<R, ExclusiveDeviceError<BUS::Error, CS::Error>>,
    )
        requires
            Self::transacts(&pre, &post, body, res),
            forall|low: CS, r: Result<(), CS::Error>| #[trigger]
                CS::set_low_spec(&pre.cs(), &low, r) ==> r is Err,
        ensures
            post.bus() == pre.bus(),
            res matches Err(ExclusiveDeviceError::Cs(e)) && Self::select_fails(&pre, &post, e),
            forall|kind: ErrorKind|
                res->Err_0.kind_spec(kind) <==> kind == ErrorKind::ChipSelectFault,
    {
    }

    /// Where the body cannot fail and chip select cannot be driven high, the
    /// transaction does not succeed: it reports a failure of the pin, which
    /// classifies as a chip-select fault, and the value of the body is lost.
    pub proof fn lemma_release_failure_is_reported<R>(
        pre: Self,
        post: Self,
        body: BusOp<BUS, R>,
        res: Result<R, ExclusiveDeviceError<BUS::Error, CS::Error>>,
    )
        requires
            Self::transacts(&pre, &post, body, res),
            forall|low: CS, high: CS, r: Result<(), CS::Error>| #[trigger]
                CS::set_high_spec(&low, &high, r) ==> r is Err,
            forall|before: BUS, after: BUS, r: Result<R, BUS::Error>| #[trigger]
                body(before, after, r) ==> r is Ok,
        ensures
            res matches Err(ExclusiveDeviceError::Cs(e)) && {
                ||| Self::select_fails(&pre, &post, e)
                ||| exists|v: R| #[trigger] Self::runs(&pre, &post, body, Ok(v), Err(e))
            },
            forall|kind: ErrorKind|
                res->Err_0.kind_spec(kind) <==> kind == ErrorKind::ChipSelectFault,
    {
        if exists|e: CS::Error| #[trigger]
            Self::select_fails(&pre, &post, e) && res == Err::<
                R,
                ExclusiveDeviceError<BUS::Error, CS::Error>,
            >(ExclusiveDeviceError::Cs(e)) {
        } else {
            let (ran, released) = choose|
                ran: Result<R, BUS::Error>,
                released: Result<(), CS::Error>,
            | #[trigger]
                Self::runs(&pre, &post, body, ran, released) && res == transaction_result(
                    ran,
                    released,
                );
            assert(ran is Ok && released is Err);
            assert(Self::runs(&pre, &post, body, Ok(ran->Ok_0), Err(released->Err_0)));
        }
    }
}

impl<BUS, CS> ErrorType for ExclusiveDevice<BUS, CS> where BUS: ErrorType, CS: OutputPin {
    type Error = ExclusiveDeviceError<BUS::Error, CS::Error>;
}

impl<BUS, CS> SpiDevice for ExclusiveDevice<BUS, CS> where BUS: ErrorType, CS: OutputPin {
    type Bus = BUS;

    /// The transactions of an exclusive device are those of
    /// [`transacts`](ExclusiveDevice::transacts).
    open spec fn transaction_spec(
        pre: &Self,
        post: &Self,
        body: BusOp<BUS, ()>,
        res: Result<(), Self::Error>,
    ) -> bool {
        Self::transacts(pre, post, body, res)
    }

    /// Drives chip select low, calls `f` on the bus, drives chip select high
    /// whatever `f` returned, and reports the first failure among the three,
    /// a failure of `f` before a failure to drive chip select high.
    ///
    /// If chip select cannot be driven low, `f` is not called.
    ///
    /// For every description `body` that `f` meets, the call obeys
    /// [`transacts`](ExclusiveDevice::transacts) with that body, on the
    /// result as it is, value included.
    fn transaction<R, F>(&mut self, f: F) -> (res: Result<R, Self::Error>) where
        F: FnOnce(&mut Self::Bus) -> Result<R, <Self::Bus as ErrorType>::Error>,

        ensures
            forall|body: BusOp<BUS, R>|
                (forall|bus: &mut BUS, r: Result<R, BUS::Error>|
                    call_ensures(f, (bus,), r) ==> body(*bus, *final(bus), r))
                    ==> #[trigger] Self::transacts(old(self), final(self), body, res),
    {
        let cs_low = self.cs.set_low();
        if let Err(e) = cs_low {
            proof {
                assert(Self::select_fails(old(self), self, e));
            }
            return Err(ExclusiveDeviceError::Cs(e));
        }
        let ghost selected = self.cs;

        let f_res = f(&mut self.bus);

        // If the closure fails, it's important to still deassert CS.
        let cs_res = self.cs.set_high();

        let res = ExclusiveDeviceError::resolve(f_res, cs_res);
        proof {
            lemma_ok_of_unit(cs_low);
            lemma_status_of_transaction_result(f_res, cs_res);
            assert(CS::set_low_spec(&old(self).cs(), &selected, Ok(())));
            assert forall|body: BusOp<BUS, R>|
                (forall|bus: &mut BUS, r: Result<R, BUS::Error>|
                    call_ensures(f, (bus,), r) ==> body(*bus, *final(bus), r))
                implies Self::transacts(old(self), self, body, res) by {
                assert(Self::runs(old(self), self, body, f_res, cs_res));
            }
            assert forall|body: BusOp<BUS, ()>|
                (forall|bus: &mut BUS, r: Result<R, BUS::Error>|
                    call_ensures(f, (bus,), r) ==> body(*bus, *final(bus), status(r)))
                implies Self::transacts(old(self), self, body, status(res)) by {
                assert(Self::runs(old(self), self, body, status(f_res), cs_res));
            }
        }
        res
    }
}

} // verus!
