//! Operand model: scalar registers, vector registers, lane selectors, and
//! coprocessor-0 control registers.
//!
//! Each operand is a closed enumeration. Its numeric field value is given by
//! the spec function `value`, computed in executable code by `index`, and a
//! checked conversion `from_index` rejects every out-of-range raw index
//! instead of truncating it: a masked index would silently encode a
//! different, valid-looking instruction.

use vstd::prelude::*;

verus! {

/// General-purpose scalar register. Register `R0` is architecturally the
/// constant zero: writes to it are encodable but the hardware discards them.
#[derive(Clone, Copy, Debug, PartialEq, Eq, Structural, PartialOrd)]
pub enum GPR {
    R0,
    AT,
    V0,
    V1,
    A0,
    A1,
    R2,
    R3,
    T0,
    T1,
    T2,
    T3,
    T4,
    T5,
    T6,
    T7,
    S0,
    S1,
    S2,
    S3,
    S4,
    S5,
    S6,
    S7,
    T8,
    T9,
    K0,
    K1,
    GP,
    SP,
    S8,
    RA,
}

impl GPR {
    /// The 5-bit register number this operand encodes to.
    pub open spec fn value(self) -> u32 {
        match self {
            GPR::R0 => 0,
            GPR::AT => 1,
            GPR::V0 => 2,
            GPR::V1 => 3,
            GPR::A0 => 4,
            GPR::A1 => 5,
            GPR::R2 => 6,
            GPR::R3 => 7,
            GPR::T0 => 8,
            GPR::T1 => 9,
            GPR::T2 => 10,
            GPR::T3 => 11,
            GPR::T4 => 12,
            GPR::T5 => 13,
            GPR::T6 => 14,
            GPR::T7 => 15,
            GPR::S0 => 16,
            GPR::S1 => 17,
            GPR::S2 => 18,
            GPR::S3 => 19,
            GPR::S4 => 20,
            GPR::S5 => 21,
            GPR::S6 => 22,
            GPR::S7 => 23,
            GPR::T8 => 24,
            GPR::T9 => 25,
            GPR::K0 => 26,
            GPR::K1 => 27,
            GPR::GP => 28,
            GPR::SP => 29,
            GPR::S8 => 30,
            GPR::RA => 31,
        }
    }

    /// Reads back the register number; exact and total.
    pub fn index(self) -> (r: u32)
        ensures
            r == self.value(),
            r < 32,
    {
        match self {
            GPR::R0 => 0,
            GPR::AT => 1,
            GPR::V0 => 2,
            GPR::V1 => 3,
            GPR::A0 => 4,
            GPR::A1 => 5,
            GPR::R2 => 6,
            GPR::R3 => 7,
            GPR::T0 => 8,
            GPR::T1 => 9,
            GPR::T2 => 10,
            GPR::T3 => 11,
            GPR::T4 => 12,
            GPR::T5 => 13,
            GPR::T6 => 14,
            GPR::T7 => 15,
            GPR::S0 => 16,
            GPR::S1 => 17,
            GPR::S2 => 18,
            GPR::S3 => 19,
            GPR::S4 => 20,
            GPR::S5 => 21,
            GPR::S6 => 22,
            GPR::S7 => 23,
            GPR::T8 => 24,
            GPR::T9 => 25,
            GPR::K0 => 26,
            GPR::K1 => 27,
            GPR::GP => 28,
            GPR::SP => 29,
            GPR::S8 => 30,
            GPR::RA => 31,
        }
    }

    /// Checked conversion from a raw index: `Some` exactly on the legal
    /// domain `0..=31`, and the register read back equals the index.
    pub fn from_index(index: usize) -> (r: Option<GPR>)
        ensures
            r is Some <==> index < 32,
            index < 32 ==> (r matches Some(g) && g.value() == index as u32),
    {
        match index {
            0 => Some(GPR::R0),
            1 => Some(GPR::AT),
            2 => Some(GPR::V0),
            3 => Some(GPR::V1),
            4 => Some(GPR::A0),
            5 => Some(GPR::A1),
            6 => Some(GPR::R2),
            7 => Some(GPR::R3),
            8 => Some(GPR::T0),
            9 => Some(GPR::T1),
            10 => Some(GPR::T2),
            11 => Some(GPR::T3),
            12 => Some(GPR::T4),
            13 => Some(GPR::T5),
            14 => Some(GPR::T6),
            15 => Some(GPR::T7),
            16 => Some(GPR::S0),
            17 => Some(GPR::S1),
            18 => Some(GPR::S2),
            19 => Some(GPR::S3),
            20 => Some(GPR::S4),
            21 => Some(GPR::S5),
            22 => Some(GPR::S6),
            23 => Some(GPR::S7),
            24 => Some(GPR::T8),
            25 => Some(GPR::T9),
            26 => Some(GPR::K0),
            27 => Some(GPR::K1),
            28 => Some(GPR::GP),
            29 => Some(GPR::SP),
            30 => Some(GPR::S8),
            31 => Some(GPR::RA),
            _ => None,
        }
    }

    /// Number of steps from `start` up to `end`, `None` unless `start` is
    /// strictly below `end`.
    pub fn steps_between(start: &GPR, end: &GPR) -> (r: Option<usize>)
        ensures
            r is Some <==> start.value() < end.value(),
            start.value() < end.value() ==> (r matches Some(n) && n == end.value()
                - start.value()),
    {
        let s = start.index();
        let e = end.index();
        if s < e {
            Some((e - s) as usize)
        } else {
            None
        }
    }

    /// The register `count` places above `start`, `None` when that leaves
    /// the register file.
    pub fn forward_checked(start: GPR, count: usize) -> (r: Option<GPR>)
        ensures
            r is Some <==> start.value() + count < 32,
            start.value() + count < 32 ==> (r matches Some(g) && g.value() == start.value()
                + count),
    {
        if count < 32 {
            GPR::from_index(start.index() as usize + count)
        } else {
            None
        }
    }

    /// The register `count` places below `start`, `None` when that falls
    /// below register zero.
    pub fn backward_checked(start: GPR, count: usize) -> (r: Option<GPR>)
        ensures
            r is Some <==> count <= start.value(),
            count <= start.value() ==> (r matches Some(g) && g.value() == start.value()
                - count),
    {
        let s = start.index() as usize;
        if count <= s {
            GPR::from_index(s - count)
        } else {
            None
        }
    }
}

/// Vector register: one of 32 SIMD registers, each eight 16-bit lanes wide.
#[derive(Clone, Copy, Debug, PartialEq, Eq, Structural)]
pub enum VR {
    V0,
    V1,
    V2,
    V3,
    V4,
    V5,
    V6,
    V7,
    V8,
    V9,
    V10,
    V11,
    V12,
    V13,
    V14,
    V15,
    V16,
    V17,
    V18,
    V19,
    V20,
    V21,
    V22,
    V23,
    V24,
    V25,
    V26,
    V27,
    V28,
    V29,
    V30,
    V31,
}

impl VR {
    /// The 5-bit register number this operand encodes to.
    pub open spec fn value(self) -> u32 {
        match self {
            VR::V0 => 0,
            VR::V1 => 1,
            VR::V2 => 2,
            VR::V3 => 3,
            VR::V4 => 4,
            VR::V5 => 5,
            VR::V6 => 6,
            VR::V7 => 7,
            VR::V8 => 8,
            VR::V9 => 9,
            VR::V10 => 10,
            VR::V11 => 11,
            VR::V12 => 12,
            VR::V13 => 13,
            VR::V14 => 14,
            VR::V15 => 15,
            VR::V16 => 16,
            VR::V17 => 17,
            VR::V18 => 18,
            VR::V19 => 19,
            VR::V20 => 20,
            VR::V21 => 21,
            VR::V22 => 22,
            VR::V23 => 23,
            VR::V24 => 24,
            VR::V25 => 25,
            VR::V26 => 26,
            VR::V27 => 27,
            VR::V28 => 28,
            VR::V29 => 29,
            VR::V30 => 30,
            VR::V31 => 31,
        }
    }

    /// Reads back the register number; exact and total.
    pub fn index(self) -> (r: u32)
        ensures
            r == self.value(),
            r < 32,
    {
        match self {
            VR::V0 => 0,
            VR::V1 => 1,
            VR::V2 => 2,
            VR::V3 => 3,
            VR::V4 => 4,
            VR::V5 => 5,
            VR::V6 => 6,
            VR::V7 => 7,
            VR::V8 => 8,
            VR::V9 => 9,
            VR::V10 => 10,
            VR::V11 => 11,
            VR::V12 => 12,
            VR::V13 => 13,
            VR::V14 => 14,
            VR::V15 => 15,
            VR::V16 => 16,
            VR::V17 => 17,
            VR::V18 => 18,
            VR::V19 => 19,
            VR::V20 => 20,
            VR::V21 => 21,
            VR::V22 => 22,
            VR::V23 => 23,
            VR::V24 => 24,
            VR::V25 => 25,
            VR::V26 => 26,
            VR::V27 => 27,
            VR::V28 => 28,
            VR::V29 => 29,
            VR::V30 => 30,
            VR::V31 => 31,
        }
    }

    /// Checked conversion from a raw index: `Some` exactly on `0..=31`.
    pub fn from_index(i: u32) -> (r: Option<VR>)
        ensures
            r is Some <==> i < 32,
            i < 32 ==> (r matches Some(v) && v.value() == i),
    {
        match i {
            0 => Some(VR::V0),
            1 => Some(VR::V1),
            2 => Some(VR::V2),
            3 => Some(VR::V3),
            4 => Some(VR::V4),
            5 => Some(VR::V5),
            6 => Some(VR::V6),
            7 => Some(VR::V7),
            8 => Some(VR::V8),
            9 => Some(VR::V9),
            10 => Some(VR::V10),
            11 => Some(VR::V11),
            12 => Some(VR::V12),
            13 => Some(VR::V13),
            14 => Some(VR::V14),
            15 => Some(VR::V15),
            16 => Some(VR::V16),
            17 => Some(VR::V17),
            18 => Some(VR::V18),
            19 => Some(VR::V19),
            20 => Some(VR::V20),
            21 => Some(VR::V21),
            22 => Some(VR::V22),
            23 => Some(VR::V23),
            24 => Some(VR::V24),
            25 => Some(VR::V25),
            26 => Some(VR::V26),
            27 => Some(VR::V27),
            28 => Some(VR::V28),
            29 => Some(VR::V29),
            30 => Some(VR::V30),
            31 => Some(VR::V31),
            _ => None,
        }
    }
}

/// Lane selector in its broadcast/grouped form, used by the vector
/// arithmetic format: whole register, all lanes as one, a quad group, a
/// half group, or one of the eight individual lanes.
#[derive(Clone, Copy, Debug, PartialEq, Eq, Structural)]
pub enum Element {
    All,
    All1,
    Q0,
    Q1,
    H0,
    H1,
    H2,
    H3,
    _0,
    _1,
    _2,
    _3,
    _4,
    _5,
    _6,
    _7,
}

impl Element {
    /// The 4-bit element-selector field value.
    pub open spec fn value(self) -> u32 {
        match self {
            Element::All => 0,
            Element::All1 => 1,
            Element::Q0 => 2,
            Element::Q1 => 3,
            Element::H0 => 4,
            Element::H1 => 5,
            Element::H2 => 6,
            Element::H3 => 7,
            Element::_0 => 8,
            Element::_1 => 9,
            Element::_2 => 10,
            Element::_3 => 11,
            Element::_4 => 12,
            Element::_5 => 13,
            Element::_6 => 14,
            Element::_7 => 15,
        }
    }

    /// Reads back the selector's field value; exact and total.
    pub fn index(self) -> (r: u32)
        ensures
            r == self.value(),
            r < 16,
    {
        match self {
            Element::All => 0,
            Element::All1 => 1,
            Element::Q0 => 2,
            Element::Q1 => 3,
            Element::H0 => 4,
            Element::H1 => 5,
            Element::H2 => 6,
            Element::H3 => 7,
            Element::_0 => 8,
            Element::_1 => 9,
            Element::_2 => 10,
            Element::_3 => 11,
            Element::_4 => 12,
            Element::_5 => 13,
            Element::_6 => 14,
            Element::_7 => 15,
        }
    }
}

/// Lane selector in its full 16-lane form, used by the accumulator-shift
/// instruction and by vector load/store addressing: one explicit lane of
/// sixteen. Not interchangeable with [`Element`].
#[derive(Clone, Copy, Debug, PartialEq, Eq, Structural)]
pub enum E {
    _0,
    _1,
    _2,
    _3,
    _4,
    _5,
    _6,
    _7,
    _8,
    _9,
    _10,
    _11,
    _12,
    _13,
    _14,
    _15,
}

impl E {
    /// The 4-bit lane-selector field value.
    pub open spec fn value(self) -> u32 {
        match self {
            E::_0 => 0,
            E::_1 => 1,
            E::_2 => 2,
            E::_3 => 3,
            E::_4 => 4,
            E::_5 => 5,
            E::_6 => 6,
            E::_7 => 7,
            E::_8 => 8,
            E::_9 => 9,
            E::_10 => 10,
            E::_11 => 11,
            E::_12 => 12,
            E::_13 => 13,
            E::_14 => 14,
            E::_15 => 15,
        }
    }

    /// Reads back the lane number; exact and total.
    pub fn index(self) -> (r: u32)
        ensures
            r == self.value(),
            r < 16,
    {
        match self {
            E::_0 => 0,
            E::_1 => 1,
            E::_2 => 2,
            E::_3 => 3,
            E::_4 => 4,
            E::_5 => 5,
            E::_6 => 6,
            E::_7 => 7,
            E::_8 => 8,
            E::_9 => 9,
            E::_10 => 10,
            E::_11 => 11,
            E::_12 => 12,
            E::_13 => 13,
            E::_14 => 14,
            E::_15 => 15,
        }
    }

    /// Checked conversion from a raw lane index: `Some` exactly on `0..=15`.
    pub fn from_index(i: u32) -> (r: Option<E>)
        ensures
            r is Some <==> i < 16,
            i < 16 ==> (r matches Some(e) && e.value() == i),
    {
        match i {
            0 => Some(E::_0),
            1 => Some(E::_1),
            2 => Some(E::_2),
            3 => Some(E::_3),
            4 => Some(E::_4),
            5 => Some(E::_5),
            6 => Some(E::_6),
            7 => Some(E::_7),
            8 => Some(E::_8),
            9 => Some(E::_9),
            10 => Some(E::_10),
            11 => Some(E::_11),
            12 => Some(E::_12),
            13 => Some(E::_13),
            14 => Some(E::_14),
            15 => Some(E::_15),
            _ => None,
        }
    }
}

/// Coprocessor-0 control register: a small closed set fixed by the
/// hardware, not user-extensible.
#[derive(Clone, Copy, Debug, PartialEq, Eq, Structural)]
pub enum CP0Register {
    SPAddress,
    DRAMAddress,
    ReadLength,
    WriteLength,
    SPStatus,
    Semaphore,
    DPStart,
    DPEnd,
    DPStatus,
    DPClock,
}

impl CP0Register {
    /// The 5-bit control-register number this operand encodes to.
    pub open spec fn value(self) -> u32 {
        match self {
            CP0Register::SPAddress => 0,
            CP0Register::DRAMAddress => 1,
            CP0Register::ReadLength => 2,
            CP0Register::WriteLength => 3,
            CP0Register::SPStatus => 4,
            CP0Register::Semaphore => 7,
            CP0Register::DPStart => 8,
            CP0Register::DPEnd => 9,
            CP0Register::DPStatus => 11,
            CP0Register::DPClock => 12,
        }
    }

    /// Reads back the control-register number; exact and total.
    pub fn index(self) -> (r: u32)
        ensures
            r == self.value(),
            r < 32,
    {
        match self {
            CP0Register::SPAddress => 0,
            CP0Register::DRAMAddress => 1,
            CP0Register::ReadLength => 2,
            CP0Register::WriteLength => 3,
            CP0Register::SPStatus => 4,
            CP0Register::Semaphore => 7,
            CP0Register::DPStart => 8,
            CP0Register::DPEnd => 9,
            CP0Register::DPStatus => 11,
            CP0Register::DPClock => 12,
        }
    }
}

} // verus!
