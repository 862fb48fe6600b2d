//! The bus the chip sits on, as far as the driver needs it.

use vstd::prelude::*;

verus! {

/// A blocking write of some bytes to the device at a 7-bit address. The
/// driver asks nothing else of a bus, and assumes nothing of what a write
/// reports.
pub trait Transport {
    /// What the bus reports when a write fails.
    type Error;

    /// Writes `bytes` to the device at `address` and returns when the bus is
    /// done with them.
    fn write(&mut self, address: u8, bytes: &[u8]) -> Result<(), Self::Error>;
}

/// One write that was handed to the bus, with what the bus answered.
pub struct Transfer<E> {
    /// The address the write went to.
    pub address: u8,
    /// The bytes that were written.
    pub bytes: Seq<u8>,
    /// What the bus reported.
    pub outcome: Result<(), E>,
}

/// A bus together with the record of every write handed to it. The bus
/// is reached through [`Link::write`] alone, so the record misses none.
pub(crate) struct Link<I2C: Transport> {
    i2c: I2C,
    sent: Ghost<Seq<Transfer<I2C::Error>>>,
}

impl<I2C: Transport + Clone> Clone for Link<I2C> {
    fn clone(&self) -> Self {
        Link { i2c: self.i2c.clone(), sent: self.sent }
    }
}

impl<I2C: Transport + Copy> Copy for Link<I2C> {

}

impl<I2C, E> Link<I2C> where I2C: Transport<Error = E> {
    /// The bus, as it is now.
    pub(crate) closed spec fn bus(&self) -> I2C {
        self.i2c
    }

    /// Every write handed to the bus, oldest first.
    pub(crate) closed spec fn history(&self) -> Seq<Transfer<E>> {
        self.sent@
    }

    /// Takes the bus, with nothing written yet.
    pub(crate) fn new(i2c: I2C) -> (link: Self)
        ensures
            link.bus() == i2c,
            link.history() == Seq::<Transfer<E>>::empty(),
    {
        Link { i2c, sent: Ghost(Seq::empty()) }
    }

    /// Gives the bus back.
    pub(crate) fn release(self) -> (i2c: I2C)
        ensures
            i2c == self.bus(),
    {
        self.i2c
    }

    /// Hands one write to the bus and records it with the bus's answer.
    pub(crate) fn write(&mut self, address: u8, bytes: &[u8]) -> (outcome: Result<(), E>)
        ensures
            final(self).history() == old(self).history().push(
                Transfer { address, bytes: bytes@, outcome },
            ),
    {
        let outcome = self.i2c.write(address, bytes);
        proof {
            self.sent@ = self.sent@.push(Transfer { address, bytes: bytes@, outcome });
        }
        outcome
    }
}

} // verus!
