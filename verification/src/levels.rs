//! The chip's closed sets of levels. Each level stands for one fixed register
//! code; the codes are the wire contract and are stated here level by level.

use vstd::prelude::*;

verus! {

/// Upper limit of the current through each LED.
#[derive(Copy, Clone, Debug, PartialEq, Eq)]
pub enum Intensity {
    /// 5 mA
    MA5,
    /// 10 mA
    MA10,
    /// 17.5 mA
    MA17,
    /// 30 mA
    MA30,
    /// 42 mA
    MA42,
}

impl Intensity {
    /// The level as the current-limit register holds it: the chip's
    /// selector for the level, placed in bits 4..2 of the byte.
    pub open spec fn spec_code(self) -> u8 {
        match self {
            Intensity::MA5 => 0x08,
            Intensity::MA10 => 0x04,
            Intensity::MA17 => 0x10,
            Intensity::MA30 => 0x0C,
            Intensity::MA42 => 0x00,
        }
    }

    #[verifier::when_used_as_spec(spec_code)]
    pub fn code(self) -> (code: u8)
        ensures
            code == self.spec_code(),
    {
        match self {
            Intensity::MA5 => 0x08,
            Intensity::MA10 => 0x04,
            Intensity::MA17 => 0x10,
            Intensity::MA30 => 0x0C,
            Intensity::MA42 => 0x00,
        }
    }
}

/// Breathing phase T0: the delay before a channel starts to rise.
#[derive(Copy, Clone, Debug, PartialEq, Eq)]
pub enum T0 {
    MS0,
    MS130,
    MS260,
    MS520,
    MS1040,
    MS2080,
    MS4160,
    MS8320,
    MS16640,
    MS33280,
    MS66560,
}

impl T0 {
    /// The chip's selector for the level, 0 to 10. The T0 register holds it
    /// in its upper four bits.
    pub open spec fn spec_code(self) -> u8 {
        match self {
            T0::MS0 => 0,
            T0::MS130 => 1,
            T0::MS260 => 2,
            T0::MS520 => 3,
            T0::MS1040 => 4,
            T0::MS2080 => 5,
            T0::MS4160 => 6,
            T0::MS8320 => 7,
            T0::MS16640 => 8,
            T0::MS33280 => 9,
            T0::MS66560 => 10,
        }
    }

    #[verifier::when_used_as_spec(spec_code)]
    pub fn code(self) -> (code: u8)
        ensures
            code == self.spec_code(),
    {
        match self {
            T0::MS0 => 0,
            T0::MS130 => 1,
            T0::MS260 => 2,
            T0::MS520 => 3,
            T0::MS1040 => 4,
            T0::MS2080 => 5,
            T0::MS4160 => 6,
            T0::MS8320 => 7,
            T0::MS16640 => 8,
            T0::MS33280 => 9,
            T0::MS66560 => 10,
        }
    }
}

/// Breathing phase T1: the time a channel takes to rise.
#[derive(Copy, Clone, Debug, PartialEq, Eq)]
pub enum T1 {
    MS130,
    MS260,
    MS520,
    MS1040,
    MS2080,
    MS4160,
    MS8320,
    MS16640,
}

impl T1 {
    /// The level as the T1/T2 register holds it: the selector, 0 to 7, in
    /// bits 7..5, so thirty-two times the selector.
    pub open spec fn spec_code(self) -> u8 {
        match self {
            T1::MS130 => 0x00,
            T1::MS260 => 0x20,
            T1::MS520 => 0x40,
            T1::MS1040 => 0x60,
            T1::MS2080 => 0x80,
            T1::MS4160 => 0xA0,
            T1::MS8320 => 0xC0,
            T1::MS16640 => 0xE0,
        }
    }

    #[verifier::when_used_as_spec(spec_code)]
    pub fn code(self) -> (code: u8)
        ensures
            code == self.spec_code(),
    {
        match self {
            T1::MS130 => 0x00,
            T1::MS260 => 0x20,
            T1::MS520 => 0x40,
            T1::MS1040 => 0x60,
            T1::MS2080 => 0x80,
            T1::MS4160 => 0xA0,
            T1::MS8320 => 0xC0,
            T1::MS16640 => 0xE0,
        }
    }
}

/// Breathing phase T2: the time a channel holds its peak.
#[derive(Copy, Clone, Debug, PartialEq, Eq)]
pub enum T2 {
    MS0,
    MS130,
    MS260,
    MS520,
    MS1040,
    MS2080,
    MS4160,
    MS8320,
    MS16640,
}

impl T2 {
    /// The level as the T1/T2 register holds it: the selector, 0 to 8, in
    /// bits 4..1, so twice the selector.
    pub open spec fn spec_code(self) -> u8 {
        match self {
            T2::MS0 => 0,
            T2::MS130 => 2,
            T2::MS260 => 4,
            T2::MS520 => 6,
            T2::MS1040 => 8,
            T2::MS2080 => 10,
            T2::MS4160 => 12,
            T2::MS8320 => 14,
            T2::MS16640 => 16,
        }
    }

    #[verifier::when_used_as_spec(spec_code)]
    pub fn code(self) -> (code: u8)
        ensures
            code == self.spec_code(),
    {
        match self {
            T2::MS0 => 0,
            T2::MS130 => 2,
            T2::MS260 => 4,
            T2::MS520 => 6,
            T2::MS1040 => 8,
            T2::MS2080 => 10,
            T2::MS4160 => 12,
            T2::MS8320 => 14,
            T2::MS16640 => 16,
        }
    }
}

/// Breathing phase T3: the time a channel takes to fall.
#[derive(Copy, Clone, Debug, PartialEq, Eq)]
pub enum T3 {
    MS130,
    MS260,
    MS520,
    MS1040,
    MS2080,
    MS4160,
    MS8320,
    MS16640,
}

impl T3 {
    /// The level as the T3/T4 register holds it: the selector, 0 to 7, in
    /// bits 7..5, so thirty-two times the selector.
    pub open spec fn spec_code(self) -> u8 {
        match self {
            T3::MS130 => 0x00,
            T3::MS260 => 0x20,
            T3::MS520 => 0x40,
            T3::MS1040 => 0x60,
            T3::MS2080 => 0x80,
            T3::MS4160 => 0xA0,
            T3::MS8320 => 0xC0,
            T3::MS16640 => 0xE0,
        }
    }

    #[verifier::when_used_as_spec(spec_code)]
    pub fn code(self) -> (code: u8)
        ensures
            code == self.spec_code(),
    {
        match self {
            T3::MS130 => 0x00,
            T3::MS260 => 0x20,
            T3::MS520 => 0x40,
            T3::MS1040 => 0x60,
            T3::MS2080 => 0x80,
            T3::MS4160 => 0xA0,
            T3::MS8320 => 0xC0,
            T3::MS16640 => 0xE0,
        }
    }
}

/// Breathing phase T4: the time a channel stays off before the next cycle.
#[derive(Copy, Clone, Debug, PartialEq, Eq)]
pub enum T4 {
    MS0,
    MS130,
    MS260,
    MS520,
    MS1040,
    MS2080,
    MS4160,
    MS8320,
    MS16640,
    MS33280,
    MS66560,
}

impl T4 {
    /// The level as the T3/T4 register holds it: the selector, 0 to 10, in
    /// bits 4..1, so twice the selector.
    pub open spec fn spec_code(self) -> u8 {
        match self {
            T4::MS0 => 0,
            T4::MS130 => 2,
            T4::MS260 => 4,
            T4::MS520 => 6,
            T4::MS1040 => 8,
            T4::MS2080 => 10,
            T4::MS4160 => 12,
            T4::MS8320 => 14,
            T4::MS16640 => 16,
            T4::MS33280 => 18,
            T4::MS66560 => 20,
        }
    }

    #[verifier::when_used_as_spec(spec_code)]
    pub fn code(self) -> (code: u8)
        ensures
            code == self.spec_code(),
    {
        match self {
            T4::MS0 => 0,
            T4::MS130 => 2,
            T4::MS260 => 4,
            T4::MS520 => 6,
            T4::MS1040 => 8,
            T4::MS2080 => 10,
            T4::MS4160 => 12,
            T4::MS8320 => 14,
            T4::MS16640 => 16,
            T4::MS33280 => 18,
            T4::MS66560 => 20,
        }
    }
}

} // verus!
