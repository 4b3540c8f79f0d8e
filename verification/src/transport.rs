use vstd::prelude::*;

verus! {

/// An opaque transport failure. The driver never inspects the cause; it maps
/// every fault to its own error kinds at the boundary.
#[derive(Copy, Clone, Debug, PartialEq, Eq, Structural)]
pub struct BusFault;

/// The two-wire bus capability the driver is written against. Callers supply
/// an implementation for their concrete transport; the driver promises
/// nothing of what a read puts in the buffer, only that a successful read
/// fills exactly the buffer it was handed.
pub trait I2cBus {
    /// Write `bytes` to the device at `address`.
    fn write(&mut self, address: u8, bytes: &Vec<u8>) -> (r: Result<(), BusFault>);

    /// Read `buffer.len()` bytes from the device at `address`.
    fn read(&mut self, address: u8, buffer: &mut Vec<u8>) -> (r: Result<(), BusFault>)
        ensures
            r is Ok ==> final(buffer)@.len() == old(buffer)@.len(),
        ;

    /// Write `bytes`, then read `buffer.len()` bytes, in one transaction.
    fn write_read(&mut self, address: u8, bytes: &Vec<u8>, buffer: &mut Vec<u8>) -> (r: Result<
        (),
        BusFault,
    >)
        ensures
            r is Ok ==> final(buffer)@.len() == old(buffer)@.len(),
        ;
}

/// A blocking millisecond delay capability, needed only by the retrying
/// single-shot mode. Assumed infallible.
pub trait DelayProvider {
    /// Block the calling thread for `ms` milliseconds.
    fn delay_ms(&mut self, ms: u32);
}

} // verus!
