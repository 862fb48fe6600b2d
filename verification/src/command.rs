//! The chip's register commands and their two-byte frames.

use vstd::prelude::*;
use crate::levels::{Intensity, T0, T1, T2, T3, T4};
use crate::mode::Channel;

verus! {

/// One register write. Each variant belongs to one register of the chip and
/// carries what that register takes.
#[derive(Copy, Clone, Debug, PartialEq, Eq)]
pub enum Command {
    /// Shutdown register. First: all channels enabled. Second: software
    /// shutdown, as opposed to normal operation.
    ShutDown(bool, bool),
    /// Breathing control. First: ramping. Second: hold for T4 instead of
    /// T2. Third: marking. Last: the channel that marking selects.
    Breathing(bool, bool, bool, Channel),
    /// LED mode: breathing if set, PWM if not.
    LedMode(bool),
    /// Current limit of the LEDs.
    Current(Intensity),
    /// Duty value of channel 1.
    PWMLed1(u8),
    /// Duty value of channel 2.
    PWMLed2(u8),
    /// Duty value of channel 3.
    PWMLed3(u8),
    /// Latches the three duty values.
    PWMUpdate,
    /// T0 of channel 1.
    T0Led1(T0),
    /// T0 of channel 2.
    T0Led2(T0),
    /// T0 of channel 3.
    T0Led3(T0),
    /// T1 and T2 of channel 1.
    T1T2Led1(T1, T2),
    /// T1 and T2 of channel 2.
    T1T2Led2(T1, T2),
    /// T1 and T2 of channel 3.
    T1T2Led3(T1, T2),
    /// T3 and T4 of channel 1.
    T3T4Led1(T3, T4),
    /// T3 and T4 of channel 2.
    T3T4Led2(T3, T4),
    /// T3 and T4 of channel 3.
    T3T4Led3(T3, T4),
    /// Latches the timing of all channels.
    BreathTimingUpdate,
    /// Power of the channels, one flag each: channel 1, 2, 3.
    Power(bool, bool, bool),
    /// Back to the state after power-on.
    Reset,
}

/// A flag as the bit it sets: 1 if set, 0 if not.
pub open spec fn flag(set: bool) -> u8 {
    if set {
        1
    } else {
        0
    }
}

impl Command {
    /// The address of the register that the command writes.
    pub open spec fn register(self) -> u8 {
        match self {
            Command::ShutDown(..) => 0x00,
            Command::Breathing(..) => 0x01,
            Command::LedMode(..) => 0x02,
            Command::Current(..) => 0x03,
            Command::PWMLed1(..) => 0x04,
            Command::PWMLed2(..) => 0x05,
            Command::PWMLed3(..) => 0x06,
            Command::PWMUpdate => 0x07,
            Command::T0Led1(..) => 0x0A,
            Command::T0Led2(..) => 0x0B,
            Command::T0Led3(..) => 0x0C,
            Command::T1T2Led1(..) => 0x10,
            Command::T1T2Led2(..) => 0x11,
            Command::T1T2Led3(..) => 0x12,
            Command::T3T4Led1(..) => 0x16,
            Command::T3T4Led2(..) => 0x17,
            Command::T3T4Led3(..) => 0x18,
            Command::BreathTimingUpdate => 0x1C,
            Command::Power(..) => 0x1D,
            Command::Reset => 0x2F,
        }
    }

    /// The byte that the command writes into its register, as a number. A
    /// field counts two to the power of its lowest bit's position:
    ///
    /// - shutdown: the enable flag in bit 5, the shutdown flag in bit 0;
    /// - breathing control: ramping in bit 5, the hold selection in bit 4,
    ///   marking in bit 2, the channel in bits 1..0;
    /// - LED mode: the breathing flag in bit 5;
    /// - current limit: the level's code as it is;
    /// - a duty value: as it is;
    /// - T0: the level's selector in bits 7..4;
    /// - T1 with T2, T3 with T4: both codes, which lie in bits 7..5 and in
    ///   bits 4..1;
    /// - power: one flag per channel, in bits 0, 1 and 2;
    /// - the two latches and the reset: zero.
    pub open spec fn payload(self) -> int {
        match self {
            Command::ShutDown(enable, shutdown) => 32 * flag(enable) + flag(shutdown),
            Command::Breathing(ramp, hold_t4, mark, channel) => 32 * flag(ramp) + 16 * flag(hold_t4)
                + 4 * flag(mark) + channel.code(),
            Command::LedMode(breathing) => 32 * flag(breathing),
            Command::Current(intensity) => intensity.code() as int,
            Command::PWMLed1(duty) | Command::PWMLed2(duty) | Command::PWMLed3(duty) => duty as int,
            Command::T0Led1(t0) | Command::T0Led2(t0) | Command::T0Led3(t0) => 16 * t0.code(),
            Command::T1T2Led1(t1, t2) | Command::T1T2Led2(t1, t2) | Command::T1T2Led3(t1, t2) => {
                t1.code() + t2.code()
            },
            Command::T3T4Led1(t3, t4) | Command::T3T4Led2(t3, t4) | Command::T3T4Led3(t3, t4) => {
                t3.code() + t4.code()
            },
            Command::PWMUpdate | Command::BreathTimingUpdate | Command::Reset => 0,
            Command::Power(led1, led2, led3) => flag(led1) + 2 * flag(led2) + 4 * flag(led3),
        }
    }

    /// The frame that goes over the bus: the register's address, then the
    /// payload.
    pub open spec fn frame(self) -> Seq<u8> {
        seq![self.register(), self.payload() as u8]
    }

    /// Encodes the command as its frame.
    pub fn as_bytes(self) -> (bytes: [u8; 2])
        ensures
            bytes@ == self.frame(),
    {
        proof {
            lemma_payload_layout(self);
        }
        let bytes: [u8; 2] = match self {
            Command::ShutDown(en, ssd) => [0x00, (en as u8) << 5 | ssd as u8],
            Command::Breathing(rm, ht, bme, css) => [
                0x01,
                (rm as u8) << 5 | (ht as u8) << 4 | (bme as u8) << 2 | css.code(),
            ],
            Command::LedMode(breath) => [0x02, (breath as u8) << 5],
            Command::Current(intensity) => [0x03, intensity.code()],
            Command::PWMLed1(pwm) => [0x04, pwm],
            Command::PWMLed2(pwm) => [0x05, pwm],
            Command::PWMLed3(pwm) => [0x06, pwm],
            Command::PWMUpdate => [0x07, 0],
            Command::T0Led1(t0) => [0x0A, t0.code() << 4],
            Command::T0Led2(t0) => [0x0B, t0.code() << 4],
            Command::T0Led3(t0) => [0x0C, t0.code() << 4],
            Command::T1T2Led1(t1, t2) => [0x10, t1.code() | t2.code()],
            Command::T1T2Led2(t1, t2) => [0x11, t1.code() | t2.code()],
            Command::T1T2Led3(t1, t2) => [0x12, t1.code() | t2.code()],
            Command::T3T4Led1(t3, t4) => [0x16, t3.code() | t4.code()],
            Command::T3T4Led2(t3, t4) => [0x17, t3.code() | t4.code()],
            Command::T3T4Led3(t3, t4) => [0x18, t3.code() | t4.code()],
            Command::BreathTimingUpdate => [0x1C, 0],
            Command::Power(led1, led2, led3) => [
                0x1D,
                (led1 as u8) | (led2 as u8) << 1 | (led3 as u8) << 2,
            ],
            Command::Reset => [0x2F, 0],
        };
        assert(bytes@ =~= self.frame());
        bytes
    }
}

/// The payload as the chip's register map draws it: each field at its bit
/// position, the fields of one register joined by `|`. No two fields of a
/// register share a bit, so the byte is the sum that [`Command::payload`]
/// gives.
pub proof fn lemma_payload_layout(cmd: Command)
    ensures
        cmd matches Command::ShutDown(enable, shutdown) ==> cmd.payload() == (flag(enable) << 5
            | flag(shutdown)),
        cmd matches Command::Breathing(ramp, hold_t4, mark, channel) ==> cmd.payload() == (flag(
            ramp,
        ) << 5 | flag(hold_t4) << 4 | flag(mark) << 2 | channel.code()),
        cmd matches Command::LedMode(breathing) ==> cmd.payload() == (flag(breathing) << 5),
        cmd matches Command::T0Led1(t0) ==> cmd.payload() == (t0.code() << 4),
        cmd matches Command::T0Led2(t0) ==> cmd.payload() == (t0.code() << 4),
        cmd matches Command::T0Led3(t0) ==> cmd.payload() == (t0.code() << 4),
        cmd matches Command::T1T2Led1(t1, t2) ==> cmd.payload() == (t1.code() | t2.code()),
        cmd matches Command::T1T2Led2(t1, t2) ==> cmd.payload() == (t1.code() | t2.code()),
        cmd matches Command::T1T2Led3(t1, t2) ==> cmd.payload() == (t1.code() | t2.code()),
        cmd matches Command::T3T4Led1(t3, t4) ==> cmd.payload() == (t3.code() | t4.code()),
        cmd matches Command::T3T4Led2(t3, t4) ==> cmd.payload() == (t3.code() | t4.code()),
        cmd matches Command::T3T4Led3(t3, t4) ==> cmd.payload() == (t3.code() | t4.code()),
        cmd matches Command::Power(led1, led2, led3) ==> cmd.payload() == (flag(led1) | flag(led2)
            << 1 | flag(led3) << 2),
{
    match cmd {
        Command::ShutDown(enable, shutdown) => {
            lemma_flags_at_5_0(flag(enable), flag(shutdown));
        },
        Command::Breathing(ramp, hold_t4, mark, channel) => {
            lemma_flags_at_5_4_2(flag(ramp), flag(hold_t4), flag(mark), channel.code());
        },
        Command::LedMode(breathing) => {
            lemma_flags_at_5_0(flag(breathing), 0);
        },
        Command::T0Led1(t0) | Command::T0Led2(t0) | Command::T0Led3(t0) => {
            lemma_upper_nibble(t0.code());
        },
        Command::T1T2Led1(t1, t2) | Command::T1T2Led2(t1, t2) | Command::T1T2Led3(t1, t2) => {
            lemma_disjoint_fields(t1.code(), t2.code());
        },
        Command::T3T4Led1(t3, t4) | Command::T3T4Led2(t3, t4) | Command::T3T4Led3(t3, t4) => {
            lemma_disjoint_fields(t3.code(), t4.code());
        },
        Command::Power(led1, led2, led3) => {
            lemma_flags_at_0_1_2(flag(led1), flag(led2), flag(led3));
        },
        _ => {},
    }
}

/// Flags in bits 5 and 0.
proof fn lemma_flags_at_5_0(a: u8, b: u8)
    by (bit_vector)
    requires
        a <= 1,
        b <= 1,
    ensures
        a << 5 | b == 32 * a + b,
        a << 5 == 32 * a,
{
}

/// Flags in bits 5, 4 and 2 above a field in bits 1..0.
proof fn lemma_flags_at_5_4_2(a: u8, b: u8, c: u8, low: u8)
    by (bit_vector)
    requires
        a <= 1,
        b <= 1,
        c <= 1,
        low <= 2,
    ensures
        a << 5 | b << 4 | c << 2 | low == 32 * a + 16 * b + 4 * c + low,
{
}

/// Flags in bits 0, 1 and 2.
proof fn lemma_flags_at_0_1_2(a: u8, b: u8, c: u8)
    by (bit_vector)
    requires
        a <= 1,
        b <= 1,
        c <= 1,
    ensures
        a | b << 1 | c << 2 == a + 2 * b + 4 * c,
{
}

/// A selector of at most four bits, moved into bits 7..4.
proof fn lemma_upper_nibble(selector: u8)
    by (bit_vector)
    requires
        selector <= 15,
    ensures
        selector << 4 == 16 * selector,
{
}

/// A field in bits 7..5 beside a field in bits 4..0.
proof fn lemma_disjoint_fields(high: u8, low: u8)
    by (bit_vector)
    requires
        high % 32 == 0,
        low < 32,
    ensures
        high | low == high + low,
{
}

/// A frame is two bytes: the address of the command's register, then the
/// payload, which always fits a byte.
pub proof fn lemma_frame_shape(cmd: Command)
    ensures
        0 <= cmd.payload() <= 255,
        cmd.frame().len() == 2,
        cmd.frame()[0] == cmd.register(),
        cmd.frame()[1] == cmd.payload(),
{
}

/// No two commands share a frame: the register tells the variant, and the
/// payload tells each of its fields.
pub proof fn lemma_frame_identifies_command(a: Command, b: Command)
    ensures
        a.frame() == b.frame() <==> a == b,
{
    lemma_frame_shape(a);
    lemma_frame_shape(b);
    if a.frame() == b.frame() {
        assert(a.register() == b.register()) by {
            assert(a.frame()[0] == b.frame()[0]);
        }
        assert(a.payload() == b.payload()) by {
            assert(a.frame()[1] == b.frame()[1]);
        }
    }
}

/// The reset command takes no argument, so its frame is always the same: the
/// reset register's address and a zero.
pub proof fn lemma_reset_frame()
    ensures
        Command::Reset.frame() == seq![0x2Fu8, 0u8],
{
}

} // verus!
