//! What each operation of the driver writes: its commands, in order.

use vstd::prelude::*;
use crate::command::Command;
use crate::levels::{Intensity, T0, T1, T2, T3, T4};
use crate::mode::{Channel, Mode};

verus! {

/// The command that sets the duty value of `channel`.
pub open spec fn duty(channel: Channel, value: u8) -> Command {
    match channel {
        Channel::Led1 => Command::PWMLed1(value),
        Channel::Led2 => Command::PWMLed2(value),
        Channel::Led3 => Command::PWMLed3(value),
    }
}

/// The command that sets T0 of `channel`.
pub open spec fn delay(channel: Channel, t0: T0) -> Command {
    match channel {
        Channel::Led1 => Command::T0Led1(t0),
        Channel::Led2 => Command::T0Led2(t0),
        Channel::Led3 => Command::T0Led3(t0),
    }
}

/// The command that sets T1 and T2 of `channel`.
pub open spec fn rise(channel: Channel, t1: T1, t2: T2) -> Command {
    match channel {
        Channel::Led1 => Command::T1T2Led1(t1, t2),
        Channel::Led2 => Command::T1T2Led2(t1, t2),
        Channel::Led3 => Command::T1T2Led3(t1, t2),
    }
}

/// The command that sets T3 and T4 of `channel`.
pub open spec fn fall(channel: Channel, t3: T3, t4: T4) -> Command {
    match channel {
        Channel::Led1 => Command::T3T4Led1(t3, t4),
        Channel::Led2 => Command::T3T4Led2(t3, t4),
        Channel::Led3 => Command::T3T4Led3(t3, t4),
    }
}

/// Setting the current limit: the one command.
pub open spec fn max_current(intensity: Intensity) -> Seq<Command> {
    seq![Command::Current(intensity)]
}

/// Setting all duty values: channel 1, 2, 3, then the latch.
pub open spec fn pwm(led1: u8, led2: u8, led3: u8) -> Seq<Command> {
    seq![
        Command::PWMLed1(led1),
        Command::PWMLed2(led2),
        Command::PWMLed3(led3),
        Command::PWMUpdate,
    ]
}

/// Setting one duty value: that of `channel`, then the latch.
pub open spec fn pwm_led(channel: Channel, value: u8) -> Seq<Command> {
    seq![duty(channel, value), Command::PWMUpdate]
}

/// Setting the breathing phases of `channel`: T0, then T1 with T2, then T3
/// with T4, then the latch.
pub open spec fn timing(channel: Channel, t0: T0, t1: T1, t2: T2, t3: T3, t4: T4) -> Seq<
    Command,
> {
    seq![
        delay(channel, t0),
        rise(channel, t1, t2),
        fall(channel, t3, t4),
        Command::BreathTimingUpdate,
    ]
}

/// Selecting a mode. PWM takes the mode register alone. Breathing takes the
/// mode register, then the breathing-control register with the flags of the
/// breathing mode and of the marking.
pub open spec fn mode(selected: Mode) -> Seq<Command> {
    match selected {
        Mode::PWM => seq![Command::LedMode(false)],
        Mode::Breath(breathing, marking) => seq![
            Command::LedMode(true),
            Command::Breathing(
                breathing.ramp(),
                breathing.hold_t4(),
                marking.enabled(),
                marking.channel(),
            ),
        ],
    }
}

/// Enabling the channels and entering or leaving software shutdown: the one
/// command.
pub open spec fn shutdown(enable_all_leds: bool, software_shutdown: bool) -> Seq<Command> {
    seq![Command::ShutDown(enable_all_leds, software_shutdown)]
}

} // verus!
