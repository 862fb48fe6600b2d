//! Channels and the two ways the chip drives them.

use vstd::prelude::*;

verus! {

/// One of the three LED channels.
#[derive(Copy, Clone, Debug, PartialEq, Eq)]
pub enum Channel {
    Led1,
    Led2,
    Led3,
}

impl Channel {
    /// The channel as the breathing-control register selects it: 0, 1 or 2.
    pub open spec fn spec_code(self) -> u8 {
        match self {
            Channel::Led1 => 0,
            Channel::Led2 => 1,
            Channel::Led3 => 2,
        }
    }

    #[verifier::when_used_as_spec(spec_code)]
    pub fn code(self) -> (code: u8)
        ensures
            code == self.spec_code(),
    {
        match self {
            Channel::Led1 => 0,
            Channel::Led2 => 1,
            Channel::Led3 => 2,
        }
    }
}

/// How a breathing cycle runs.
#[derive(Copy, Clone, Debug, PartialEq, Eq)]
pub enum BreathingMode {
    /// Cycles repeat on their own, holding for T2.
    Auto,
    /// One ramped cycle, holding for T4.
    OneCycle,
    /// Ramps up and holds for T2.
    RampToOn,
}

impl BreathingMode {
    /// Whether the breathing-control register gets its ramp bit.
    pub open spec fn ramp(self) -> bool {
        self != BreathingMode::Auto
    }

    /// Whether the breathing-control register selects T4, not T2, as the
    /// hold time.
    pub open spec fn hold_t4(self) -> bool {
        self == BreathingMode::OneCycle
    }
}

/// Whether one channel stays lit through the hold phase, and which.
#[derive(Copy, Clone, Debug, PartialEq, Eq)]
pub enum Marking {
    Off,
    On(Channel),
}

impl Marking {
    /// Whether the breathing-control register gets its mark bit.
    pub open spec fn enabled(self) -> bool {
        self is On
    }

    /// The channel the breathing-control register names: the marked one, or
    /// channel 1 where none is marked.
    pub open spec fn channel(self) -> Channel {
        match self {
            Marking::Off => Channel::Led1,
            Marking::On(channel) => channel,
        }
    }
}

/// What drives the LEDs' brightness.
#[allow(clippy::upper_case_acronyms)]
#[derive(Copy, Clone, Debug, PartialEq, Eq)]
pub enum Mode {
    /// The duty values of the PWM registers, as they are.
    PWM,
    /// The chip's own fade cycle over the phases T0 to T4.
    Breath(BreathingMode, Marking),
}

} // verus!
