//! The six instruction layouts, each as a spec function that bit-packs the
//! operand fields into one 32-bit word.
//!
//! These functions are the binary contract of the whole library: every
//! encoder's postcondition says that the emitted word equals one of them,
//! and the lemmas in [`crate::fields`] prove that each places every field
//! at its documented bit span and nowhere else.

use vstd::prelude::*;

use crate::opcode::CP2_VECTOR;
use crate::opcode::OP_COP0;
use crate::opcode::OP_COP2;
use crate::opcode::OP_SPECIAL;

verus! {

/// Main-immediate layout: `opcode(6) | rs(5) | rt(5) | immediate(16)`,
/// most-significant field first. The 16-bit immediate is the caller's bit
/// pattern verbatim; sign or zero extension is the hardware's concern.
pub open spec fn main_immediate_word(op: u32, rs: u32, rt: u32, imm: u16) -> u32
    recommends
        op < 64,
        rs < 32,
        rt < 32,
{
    (imm as u32) | (rt << 16) | (rs << 21) | (op << 26)
}

/// Main-jump layout: `opcode(6) | target(26)`, the target already a word
/// address (the byte address shifted right by two).
pub open spec fn main_jump_word(op: u32, target: u32) -> u32
    recommends
        op < 64,
        target < 0x400_0000,
{
    target | (op << 26)
}

/// SPECIAL (register-register) layout:
/// `OP_SPECIAL(6) | rs(5) | rt(5) | rd(5) | sa(5) | function(6)`.
pub open spec fn special_word(function: u32, sa: u32, rd: u32, rs: u32, rt: u32) -> u32
    recommends
        function < 64,
        sa < 32,
        rd < 32,
        rs < 32,
        rt < 32,
{
    function | (sa << 6) | (rd << 11) | (rt << 16) | (rs << 21) | (OP_SPECIAL << 26)
}

/// Coprocessor-0 move layout:
/// `OP_COP0(6) | sub_op(5) | rt(5) | reg(5) | 0(11)`.
pub open spec fn cop0_word(sub_op: u32, reg: u32, rt: u32) -> u32
    recommends
        sub_op < 32,
        reg < 32,
        rt < 32,
{
    (reg << 11) | (rt << 16) | (sub_op << 21) | (OP_COP0 << 26)
}

/// Vector load/store layout:
/// `opcode(6) | base(5) | vt(5) | sub_op(5) | element(4) | offset(7)`,
/// the offset a signed displacement already scaled down by 16 bytes and
/// truncated to its 7-bit field.
pub open spec fn wc2_word(op: u32, base: u32, vt: u32, sub_op: u32, element: u32, offset7: u32) -> u32
    recommends
        op < 64,
        base < 32,
        vt < 32,
        sub_op < 32,
        element < 16,
        offset7 < 128,
{
    offset7 | (element << 7) | (sub_op << 11) | (vt << 16) | (base << 21) | (op << 26)
}

/// Vector arithmetic layout:
/// `OP_COP2(6) | (CP2_VECTOR | e)(5) | vt(5) | vs(5) | vd(5) | function(6)`.
/// `CP2_VECTOR` has zero bits exactly where the 4-bit element selector
/// sits, so the two fields share bits 21..=25 through a bitwise OR; this
/// mirrors the hardware's decoder and must not be "cleaned up".
pub open spec fn vector_word(function: u32, vd: u32, vs: u32, vt: u32, e: u32) -> u32
    recommends
        function < 64,
        vd < 32,
        vs < 32,
        vt < 32,
        e < 16,
{
    function | (vd << 6) | (vs << 11) | (vt << 16) | (e << 21) | (CP2_VECTOR << 21) | (OP_COP2
        << 26)
}

/// The immediate of a backward branch to a captured target offset `target`
/// from the current write offset `cursor`: the raw byte distance is reduced
/// modulo 4096, scaled down to words, and decremented by one (the hardware
/// counts the displacement from the delay slot). The reduction to 12 bits
/// caps the reachable backward distance well short of the 16-bit field's
/// nominal range; it is kept verbatim for compatibility.
pub open spec fn backward_branch_imm(target: int, cursor: int) -> u16 {
    let words = ((target - cursor) % 4096) / 4;
    if words == 0 {
        0xFFFFu16
    } else {
        (words - 1) as u16
    }
}

} // verus!
