//! The device controller: one method per operation of the chip.

use vstd::prelude::*;
use crate::command::Command;
use crate::sequence;
use crate::levels::{Intensity, T0, T1, T2, T3, T4};
use crate::mode::{BreathingMode, Channel, Marking, Mode};
use crate::transport::{Link, Transfer, Transport};

verus! {

/// The one way an operation fails: the bus reported a failure.
#[derive(Clone, Debug, PartialEq, Eq)]
pub enum IS31FL3193Error<E> {
    /// The failure as the bus reported it.
    I2c(E),
}

impl<E> IS31FL3193Error<E> {
    /// What an operation reports for what the bus answered to its last
    /// write: success for success, and the bus's own error for a failure.
    pub open spec fn spec_from_bus(outcome: Result<(), E>) -> Result<(), Self> {
        match outcome {
            Ok(()) => Ok(()),
            Err(e) => Err(IS31FL3193Error::I2c(e)),
        }
    }

    #[verifier::when_used_as_spec(spec_from_bus)]
    pub fn from_bus(outcome: Result<(), E>) -> (result: Result<(), Self>)
        ensures
            result == Self::spec_from_bus(outcome),
    {
        match outcome {
            Ok(()) => Ok(()),
            Err(e) => Err(IS31FL3193Error::I2c(e)),
        }
    }
}

/// Where the chip's address pin is tied. The wiring selects the chip's bus
/// address.
#[derive(Copy, Clone, Debug, PartialEq, Eq)]
pub enum ADPin {
    ToGND,
    ToVCC,
    ToSCL,
    ToSDA,
}

impl ADPin {
    /// The 7-bit bus address of a chip with this wiring.
    pub open spec fn address(self) -> u8 {
        match self {
            ADPin::ToGND => 0x68,
            ADPin::ToVCC => 0x6B,
            ADPin::ToSCL => 0x69,
            ADPin::ToSDA => 0x6A,
        }
    }
}

/// Each wiring has an address of its own, and each address is a 7-bit one.
pub proof fn lemma_address_identifies_pin(a: ADPin, b: ADPin)
    ensures
        a.address() == b.address() <==> a == b,
        a.address() < 128,
{
}

/// The driver of one chip. It owns the bus it was given and knows the chip's
/// address; it keeps no copy of the chip's registers.
#[derive(Copy, Clone)]
pub struct IS31FL3193<I2C: Transport> {
    link: Link<I2C>,
    address: u8,
}

impl<I2C, E> IS31FL3193<I2C> where I2C: Transport<Error = E> {
    /// The bus the driver holds.
    pub closed spec fn bus(&self) -> I2C {
        self.link.bus()
    }

    /// The bus address of the chip.
    pub closed spec fn address(&self) -> u8 {
        self.address
    }

    /// Every write this driver has handed to its bus, oldest first.
    pub closed spec fn history(&self) -> Seq<Transfer<E>> {
        self.link.history()
    }

    /// The chip's address is one that the address pin can select, and every
    /// write so far was one frame of two bytes to that address.
    pub open spec fn wf(&self) -> bool {
        &&& exists|pin: ADPin| self.address() == pin.address()
        &&& forall|i: int|
            0 <= i < self.history().len() ==> (#[trigger] self.history()[i]).address
                == self.address() && self.history()[i].bytes.len() == 2
    }

    /// `after` is `before` after one attempt at `plan` that ended in
    /// `result`. The address is the same, and what the history held it still
    /// holds. It has grown by the frames of `plan` from the first on, in
    /// order and without a gap, each written to the chip's address: all of
    /// them, or those up to and including the first that the bus refused.
    /// `result` is what the bus answered to the last frame written, so it is
    /// `Ok` only if the whole plan was written, and otherwise carries the
    /// error of the frame at which the attempt stopped.
    pub open spec fn follows(
        before: Self,
        after: Self,
        plan: Seq<Command>,
        result: Result<(), IS31FL3193Error<E>>,
    ) -> bool {
        let start = before.history().len();
        let end = after.history().len();
        &&& after.address() == before.address()
        &&& start < end <= start + plan.len()
        &&& forall|i: int| 0 <= i < start ==> #[trigger] after.history()[i] == before.history()[i]
        &&& forall|i: int|
            start <= i < end ==> {
                let transfer = #[trigger] after.history()[i];
                &&& transfer.address == before.address()
                &&& transfer.bytes == plan[i - start].frame()
                &&& i < end - 1 ==> transfer.outcome is Ok
            }
        &&& result == IS31FL3193Error::spec_from_bus(after.history().last().outcome)
        &&& result is Ok ==> end == start + plan.len()
    }

    /// An attempt ends at the first frame that the bus refuses. Every frame
    /// before the last one written was accepted. The attempt fails exactly if
    /// the last one was refused, and then reports the error that the bus gave
    /// for that frame; no later frame of the plan was written. It succeeds
    /// exactly if every frame of the plan was written and accepted.
    pub proof fn lemma_attempt_stops_at_first_failure(
        before: Self,
        after: Self,
        plan: Seq<Command>,
        result: Result<(), IS31FL3193Error<E>>,
    )
        requires
            Self::follows(before, after, plan, result),
        ensures
            forall|i: int|
                before.history().len() <= i < after.history().len() - 1 ==> (
                #[trigger] after.history()[i]).outcome is Ok,
            result is Err <==> after.history().last().outcome is Err,
            result matches Err(error) ==> error == IS31FL3193Error::I2c(
                after.history().last().outcome->Err_0,
            ),
            result is Ok <==> {
                &&& after.history().len() == before.history().len() + plan.len()
                &&& forall|i: int|
                    before.history().len() <= i < after.history().len() ==> (
                    #[trigger] after.history()[i]).outcome is Ok
            },
    {
        let last = after.history().len() - 1;
        assert(after.history().last() == after.history()[last]);
    }

    /// Binds a bus to the chip whose address pin is wired as `adpin` says.
    pub fn new(i2c: I2C, adpin: ADPin) -> (driver: IS31FL3193<I2C>)
        ensures
            driver.wf(),
            driver.bus() == i2c,
            driver.address() == adpin.address(),
            driver.history() == Seq::<Transfer<E>>::empty(),
    {
        assert(0xD0u8 >> 1 == 0x68 && 0xD6u8 >> 1 == 0x6B && 0xD2u8 >> 1 == 0x69 && 0xD4u8 >> 1
            == 0x6A) by (bit_vector);
        let address: u8 = match adpin {
            ADPin::ToGND => 0xD0 >> 1,
            ADPin::ToVCC => 0xD6 >> 1,
            ADPin::ToSCL => 0xD2 >> 1,
            ADPin::ToSDA => 0xD4 >> 1,
        };
        assert(address == adpin.address());
        IS31FL3193 { link: Link::new(i2c), address }
    }

    /// Gives the bus back and ends the driver.
    pub fn release(self) -> (i2c: I2C)
        ensures
            i2c == self.bus(),
    {
        self.link.release()
    }

    /// Writes one command to the chip: its frame, to the chip's address.
    pub fn send(&mut self, cmd: Command) -> (result: Result<(), IS31FL3193Error<E>>)
        requires
            old(self).wf(),
        ensures
            final(self).wf(),
            Self::follows(*old(self), *final(self), seq![cmd], result),
    {
        let bytes = cmd.as_bytes();
        let outcome = self.link.write(self.address, bytes.as_slice());
        IS31FL3193Error::from_bus(outcome)
    }

    /// Sets the upper limit of the current through each LED.
    pub fn set_max_current(&mut self, intensity: Intensity) -> (result: Result<
        (),
        IS31FL3193Error<E>,
    >)
        requires
            old(self).wf(),
        ensures
            final(self).wf(),
            Self::follows(*old(self), *final(self), sequence::max_current(intensity), result),
    {
        self.send(Command::Current(intensity))
    }

    /// Sets the duty values of the three channels and latches them. The latch
    /// is written only after all three values were.
    pub fn set_pwm(&mut self, led1: u8, led2: u8, led3: u8) -> (result: Result<
        (),
        IS31FL3193Error<E>,
    >)
        requires
            old(self).wf(),
        ensures
            final(self).wf(),
            Self::follows(*old(self), *final(self), sequence::pwm(led1, led2, led3), result),
    {
        self.send(Command::PWMLed1(led1))?;
        self.send(Command::PWMLed2(led2))?;
        self.send(Command::PWMLed3(led3))?;
        self.send(Command::PWMUpdate)
    }

    /// Sets the duty value of channel 1 and latches it.
    pub fn set_pwm_led1(&mut self, led1: u8) -> (result: Result<(), IS31FL3193Error<E>>)
        requires
            old(self).wf(),
        ensures
            final(self).wf(),
            Self::follows(*old(self), *final(self), sequence::pwm_led(Channel::Led1, led1), result),
    {
        self.send(Command::PWMLed1(led1))?;
        self.send(Command::PWMUpdate)
    }

    /// Sets the duty value of channel 2 and latches it.
    pub fn set_pwm_led2(&mut self, led2: u8) -> (result: Result<(), IS31FL3193Error<E>>)
        requires
            old(self).wf(),
        ensures
            final(self).wf(),
            Self::follows(*old(self), *final(self), sequence::pwm_led(Channel::Led2, led2), result),
    {
        self.send(Command::PWMLed2(led2))?;
        self.send(Command::PWMUpdate)
    }

    /// Sets the duty value of channel 3 and latches it.
    pub fn set_pwm_led3(&mut self, led3: u8) -> (result: Result<(), IS31FL3193Error<E>>)
        requires
            old(self).wf(),
        ensures
            final(self).wf(),
            Self::follows(*old(self), *final(self), sequence::pwm_led(Channel::Led3, led3), result),
    {
        self.send(Command::PWMLed3(led3))?;
        self.send(Command::PWMUpdate)
    }

    /// Sets the five breathing phases of one channel and latches them.
    pub fn set_timing(&mut self, led: Channel, t0: T0, t1: T1, t2: T2, t3: T3, t4: T4) -> (result:
        Result<(), IS31FL3193Error<E>>)
        requires
            old(self).wf(),
        ensures
            final(self).wf(),
            Self::follows(
                *old(self),
                *final(self),
                sequence::timing(led, t0, t1, t2, t3, t4),
                result,
            ),
    {
        match led {
            Channel::Led1 => {
                self.send(Command::T0Led1(t0))?;
                self.send(Command::T1T2Led1(t1, t2))?;
                self.send(Command::T3T4Led1(t3, t4))?;
            },
            Channel::Led2 => {
                self.send(Command::T0Led2(t0))?;
                self.send(Command::T1T2Led2(t1, t2))?;
                self.send(Command::T3T4Led2(t3, t4))?;
            },
            Channel::Led3 => {
                self.send(Command::T0Led3(t0))?;
                self.send(Command::T1T2Led3(t1, t2))?;
                self.send(Command::T3T4Led3(t3, t4))?;
            },
        }
        self.send(Command::BreathTimingUpdate)
    }

    /// Selects what drives the LEDs: their duty values, or the chip's fade
    /// cycle in one of its forms.
    pub fn set_mode(&mut self, mode: Mode) -> (result: Result<(), IS31FL3193Error<E>>)
        requires
            old(self).wf(),
        ensures
            final(self).wf(),
            Self::follows(*old(self), *final(self), sequence::mode(mode), result),
    {
        match mode {
            Mode::PWM => self.send(Command::LedMode(false)),
            Mode::Breath(breath_mode, marking) => {
                self.send(Command::LedMode(true))?;
                match breath_mode {
                    BreathingMode::Auto => match marking {
                        Marking::Off => {
                            self.send(Command::Breathing(false, false, false, Channel::Led1))
                        },
                        Marking::On(channel) => {
                            self.send(Command::Breathing(false, false, true, channel))
                        },
                    },
                    BreathingMode::OneCycle => match marking {
                        Marking::Off => {
                            self.send(Command::Breathing(true, true, false, Channel::Led1))
                        },
                        Marking::On(channel) => {
                            self.send(Command::Breathing(true, true, true, channel))
                        },
                    },
                    BreathingMode::RampToOn => match marking {
                        Marking::Off => {
                            self.send(Command::Breathing(true, false, false, Channel::Led1))
                        },
                        Marking::On(channel) => {
                            self.send(Command::Breathing(true, false, true, channel))
                        },
                    },
                }
            },
        }
    }

    /// Enables or disables all channels, and enters or leaves software
    /// shutdown.
    pub fn shutdown(&mut self, enable_all_leds: bool, shutdown: bool) -> (result: Result<
        (),
        IS31FL3193Error<E>,
    >)
        requires
            old(self).wf(),
        ensures
            final(self).wf(),
            Self::follows(
                *old(self),
                *final(self),
                sequence::shutdown(enable_all_leds, shutdown),
                result,
            ),
    {
        self.send(Command::ShutDown(enable_all_leds, shutdown))
    }
}

} // verus!
