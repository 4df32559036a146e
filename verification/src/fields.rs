//! Laws of the six instruction layouts.
//!
//! For each layout two lemmas are proved. The extraction lemma shows that
//! every operand can be read back from its documented bit span of the
//! encoded word, and that the layout's fixed bits hold their fixed values:
//! the encoding loses nothing and puts nothing anywhere else. The isolation
//! lemma shows that varying exactly one operand, all others held constant,
//! leaves every bit outside that operand's declared field unchanged and
//! moves the field itself whenever the operand differs.

use vstd::prelude::*;

use crate::word::cop0_word;
use crate::word::main_immediate_word;
use crate::word::main_jump_word;
use crate::word::special_word;
use crate::word::vector_word;
use crate::word::wc2_word;

verus! {

/// Main-immediate layout: opcode at bits 26..=31, `rs` at 21..=25, `rt` at
/// 16..=20, the immediate at 0..=15.
pub proof fn lemma_main_immediate_fields(op: u32, rs: u32, rt: u32, imm: u16)
    by (bit_vector)
    requires
        op < 64,
        rs < 32,
        rt < 32,
    ensures
        main_immediate_word(op, rs, rt, imm) >> 26 == op,
        (main_immediate_word(op, rs, rt, imm) >> 21) & 0x1F == rs,
        (main_immediate_word(op, rs, rt, imm) >> 16) & 0x1F == rt,
        main_immediate_word(op, rs, rt, imm) & 0xFFFF == imm,
{
}

/// Varying one main-immediate operand never touches a bit outside its own
/// field, and a differing operand always moves its field.
pub proof fn lemma_main_immediate_isolation(
    op: u32,
    rs1: u32,
    rs2: u32,
    rt1: u32,
    rt2: u32,
    imm1: u16,
    imm2: u16,
)
    by (bit_vector)
    requires
        op < 64,
        rs1 < 32,
        rs2 < 32,
        rt1 < 32,
        rt2 < 32,
    ensures
        main_immediate_word(op, rs1, rt1, imm1) & !0x03E0_0000u32 == main_immediate_word(
            op,
            rs2,
            rt1,
            imm1,
        ) & !0x03E0_0000u32,
        rs1 != rs2 ==> main_immediate_word(op, rs1, rt1, imm1) & 0x03E0_0000
            != main_immediate_word(op, rs2, rt1, imm1) & 0x03E0_0000,
        main_immediate_word(op, rs1, rt1, imm1) & !0x001F_0000u32 == main_immediate_word(
            op,
            rs1,
            rt2,
            imm1,
        ) & !0x001F_0000u32,
        rt1 != rt2 ==> main_immediate_word(op, rs1, rt1, imm1) & 0x001F_0000
            != main_immediate_word(op, rs1, rt2, imm1) & 0x001F_0000,
        main_immediate_word(op, rs1, rt1, imm1) & !0x0000_FFFFu32 == main_immediate_word(
            op,
            rs1,
            rt1,
            imm2,
        ) & !0x0000_FFFFu32,
        imm1 != imm2 ==> main_immediate_word(op, rs1, rt1, imm1) & 0x0000_FFFF
            != main_immediate_word(op, rs1, rt1, imm2) & 0x0000_FFFF,
{
}

/// Main-jump layout: opcode at bits 26..=31, the word-addressed target at
/// 0..=25.
pub proof fn lemma_main_jump_fields(op: u32, target: u32)
    by (bit_vector)
    requires
        op < 64,
        target < 0x400_0000,
    ensures
        main_jump_word(op, target) >> 26 == op,
        main_jump_word(op, target) & 0x03FF_FFFF == target,
{
}

/// Varying the main-jump target never touches the opcode bits, and a
/// differing target always moves the target field.
pub proof fn lemma_main_jump_isolation(op: u32, target1: u32, target2: u32)
    by (bit_vector)
    requires
        op < 64,
        target1 < 0x400_0000,
        target2 < 0x400_0000,
    ensures
        main_jump_word(op, target1) & !0x03FF_FFFFu32 == main_jump_word(op, target2)
            & !0x03FF_FFFFu32,
        target1 != target2 ==> main_jump_word(op, target1) & 0x03FF_FFFF != main_jump_word(
            op,
            target2,
        ) & 0x03FF_FFFF,
{
}

/// SPECIAL layout: the fixed zero opcode at bits 26..=31, `rs` at 21..=25,
/// `rt` at 16..=20, `rd` at 11..=15, the shift amount at 6..=10, the
/// function code at 0..=5.
pub proof fn lemma_special_fields(function: u32, sa: u32, rd: u32, rs: u32, rt: u32)
    by (bit_vector)
    requires
        function < 64,
        sa < 32,
        rd < 32,
        rs < 32,
        rt < 32,
    ensures
        special_word(function, sa, rd, rs, rt) >> 26 == 0,
        (special_word(function, sa, rd, rs, rt) >> 21) & 0x1F == rs,
        (special_word(function, sa, rd, rs, rt) >> 16) & 0x1F == rt,
        (special_word(function, sa, rd, rs, rt) >> 11) & 0x1F == rd,
        (special_word(function, sa, rd, rs, rt) >> 6) & 0x1F == sa,
        special_word(function, sa, rd, rs, rt) & 0x3F == function,
{
}

/// Varying one SPECIAL operand never touches a bit outside its own field,
/// and a differing operand always moves its field.
pub proof fn lemma_special_isolation(
    function: u32,
    sa1: u32,
    sa2: u32,
    rd1: u32,
    rd2: u32,
    rs1: u32,
    rs2: u32,
    rt1: u32,
    rt2: u32,
)
    by (bit_vector)
    requires
        function < 64,
        sa1 < 32,
        sa2 < 32,
        rd1 < 32,
        rd2 < 32,
        rs1 < 32,
        rs2 < 32,
        rt1 < 32,
        rt2 < 32,
    ensures
        special_word(function, sa1, rd1, rs1, rt1) & !0x0000_07C0u32 == special_word(
            function,
            sa2,
            rd1,
            rs1,
            rt1,
        ) & !0x0000_07C0u32,
        sa1 != sa2 ==> special_word(function, sa1, rd1, rs1, rt1) & 0x0000_07C0 != special_word(
            function,
            sa2,
            rd1,
            rs1,
            rt1,
        ) & 0x0000_07C0,
        special_word(function, sa1, rd1, rs1, rt1) & !0x0000_F800u32 == special_word(
            function,
            sa1,
            rd2,
            rs1,
            rt1,
        ) & !0x0000_F800u32,
        rd1 != rd2 ==> special_word(function, sa1, rd1, rs1, rt1) & 0x0000_F800 != special_word(
            function,
            sa1,
            rd2,
            rs1,
            rt1,
        ) & 0x0000_F800,
        special_word(function, sa1, rd1, rs1, rt1) & !0x03E0_0000u32 == special_word(
            function,
            sa1,
            rd1,
            rs2,
            rt1,
        ) & !0x03E0_0000u32,
        rs1 != rs2 ==> special_word(function, sa1, rd1, rs1, rt1) & 0x03E0_0000 != special_word(
            function,
            sa1,
            rd1,
            rs2,
            rt1,
        ) & 0x03E0_0000,
        special_word(function, sa1, rd1, rs1, rt1) & !0x001F_0000u32 == special_word(
            function,
            sa1,
            rd1,
            rs1,
            rt2,
        ) & !0x001F_0000u32,
        rt1 != rt2 ==> special_word(function, sa1, rd1, rs1, rt1) & 0x001F_0000 != special_word(
            function,
            sa1,
            rd1,
            rs1,
            rt2,
        ) & 0x001F_0000,
{
}

/// Coprocessor-0 move layout: the COP0 opcode at bits 26..=31, the sub-op
/// at 21..=25, `rt` at 16..=20, the control register at 11..=15, and the
/// low eleven bits fixed to zero.
pub proof fn lemma_cop0_fields(sub_op: u32, reg: u32, rt: u32)
    by (bit_vector)
    requires
        sub_op < 32,
        reg < 32,
        rt < 32,
    ensures
        cop0_word(sub_op, reg, rt) >> 26 == 16,
        (cop0_word(sub_op, reg, rt) >> 21) & 0x1F == sub_op,
        (cop0_word(sub_op, reg, rt) >> 16) & 0x1F == rt,
        (cop0_word(sub_op, reg, rt) >> 11) & 0x1F == reg,
        cop0_word(sub_op, reg, rt) & 0x7FF == 0,
{
}

/// Varying one coprocessor-0 move operand never touches a bit outside its
/// own field, and a differing operand always moves its field.
pub proof fn lemma_cop0_isolation(sub_op: u32, reg1: u32, reg2: u32, rt1: u32, rt2: u32)
    by (bit_vector)
    requires
        sub_op < 32,
        reg1 < 32,
        reg2 < 32,
        rt1 < 32,
        rt2 < 32,
    ensures
        cop0_word(sub_op, reg1, rt1) & !0x0000_F800u32 == cop0_word(sub_op, reg2, rt1)
            & !0x0000_F800u32,
        reg1 != reg2 ==> cop0_word(sub_op, reg1, rt1) & 0x0000_F800 != cop0_word(sub_op, reg2, rt1)
            & 0x0000_F800,
        cop0_word(sub_op, reg1, rt1) & !0x001F_0000u32 == cop0_word(sub_op, reg1, rt2)
            & !0x001F_0000u32,
        rt1 != rt2 ==> cop0_word(sub_op, reg1, rt1) & 0x001F_0000 != cop0_word(sub_op, reg1, rt2)
            & 0x001F_0000,
{
}

/// Vector load/store layout: opcode at bits 26..=31, the base register at
/// 21..=25, `vt` at 16..=20, the sub-op at 11..=15, the element selector at
/// 7..=10, the scaled offset at 0..=6. The element selector and the offset
/// intermix with the sub-opcode field at widths narrower than a "natural"
/// coprocessor layout; the spans here are the hardware's.
pub proof fn lemma_wc2_fields(op: u32, base: u32, vt: u32, sub_op: u32, element: u32, offset7: u32)
    by (bit_vector)
    requires
        op < 64,
        base < 32,
        vt < 32,
        sub_op < 32,
        element < 16,
        offset7 < 128,
    ensures
        wc2_word(op, base, vt, sub_op, element, offset7) >> 26 == op,
        (wc2_word(op, base, vt, sub_op, element, offset7) >> 21) & 0x1F == base,
        (wc2_word(op, base, vt, sub_op, element, offset7) >> 16) & 0x1F == vt,
        (wc2_word(op, base, vt, sub_op, element, offset7) >> 11) & 0x1F == sub_op,
        (wc2_word(op, base, vt, sub_op, element, offset7) >> 7) & 0xF == element,
        wc2_word(op, base, vt, sub_op, element, offset7) & 0x7F == offset7,
{
}

/// Varying one vector load/store operand never touches a bit outside its
/// own field, and a differing operand always moves its field.
pub proof fn lemma_wc2_isolation(
    op: u32,
    sub_op: u32,
    base1: u32,
    base2: u32,
    vt1: u32,
    vt2: u32,
    element1: u32,
    element2: u32,
    offset1: u32,
    offset2: u32,
)
    by (bit_vector)
    requires
        op < 64,
        sub_op < 32,
        base1 < 32,
        base2 < 32,
        vt1 < 32,
        vt2 < 32,
        element1 < 16,
        element2 < 16,
        offset1 < 128,
        offset2 < 128,
    ensures
        wc2_word(op, base1, vt1, sub_op, element1, offset1) & !0x03E0_0000u32 == wc2_word(
            op,
            base2,
            vt1,
            sub_op,
            element1,
            offset1,
        ) & !0x03E0_0000u32,
        base1 != base2 ==> wc2_word(op, base1, vt1, sub_op, element1, offset1) & 0x03E0_0000
            != wc2_word(op, base2, vt1, sub_op, element1, offset1) & 0x03E0_0000,
        wc2_word(op, base1, vt1, sub_op, element1, offset1) & !0x001F_0000u32 == wc2_word(
            op,
            base1,
            vt2,
            sub_op,
            element1,
            offset1,
        ) & !0x001F_0000u32,
        vt1 != vt2 ==> wc2_word(op, base1, vt1, sub_op, element1, offset1) & 0x001F_0000
            != wc2_word(op, base1, vt2, sub_op, element1, offset1) & 0x001F_0000,
        wc2_word(op, base1, vt1, sub_op, element1, offset1) & !0x0000_0780u32 == wc2_word(
            op,
            base1,
            vt1,
            sub_op,
            element2,
            offset1,
        ) & !0x0000_0780u32,
        element1 != element2 ==> wc2_word(op, base1, vt1, sub_op, element1, offset1) & 0x0000_0780
            != wc2_word(op, base1, vt1, sub_op, element2, offset1) & 0x0000_0780,
        wc2_word(op, base1, vt1, sub_op, element1, offset1) & !0x0000_007Fu32 == wc2_word(
            op,
            base1,
            vt1,
            sub_op,
            element1,
            offset2,
        ) & !0x0000_007Fu32,
        offset1 != offset2 ==> wc2_word(op, base1, vt1, sub_op, element1, offset1) & 0x0000_007F
            != wc2_word(op, base1, vt1, sub_op, element1, offset2) & 0x0000_007F,
{
}

/// Vector arithmetic layout: the COP2 opcode at bits 26..=31, the
/// vector-unit marker and the element selector sharing bits 21..=25 (the
/// marker's set bit is 25, the selector fills 21..=24), `vt` at 16..=20,
/// `vs` at 11..=15, `vd` at 6..=10, the function code at 0..=5.
pub proof fn lemma_vector_fields(function: u32, vd: u32, vs: u32, vt: u32, e: u32)
    by (bit_vector)
    requires
        function < 64,
        vd < 32,
        vs < 32,
        vt < 32,
        e < 16,
    ensures
        vector_word(function, vd, vs, vt, e) >> 26 == 18,
        (vector_word(function, vd, vs, vt, e) >> 25) & 1 == 1,
        (vector_word(function, vd, vs, vt, e) >> 21) & 0xF == e,
        (vector_word(function, vd, vs, vt, e) >> 16) & 0x1F == vt,
        (vector_word(function, vd, vs, vt, e) >> 11) & 0x1F == vs,
        (vector_word(function, vd, vs, vt, e) >> 6) & 0x1F == vd,
        vector_word(function, vd, vs, vt, e) & 0x3F == function,
{
}

/// Varying one vector arithmetic operand never touches a bit outside its
/// own field, and a differing operand always moves its field. In
/// particular, changing only the lane selector moves only bits 21..=24.
pub proof fn lemma_vector_isolation(
    function: u32,
    vd1: u32,
    vd2: u32,
    vs1: u32,
    vs2: u32,
    vt1: u32,
    vt2: u32,
    e1: u32,
    e2: u32,
)
    by (bit_vector)
    requires
        function < 64,
        vd1 < 32,
        vd2 < 32,
        vs1 < 32,
        vs2 < 32,
        vt1 < 32,
        vt2 < 32,
        e1 < 16,
        e2 < 16,
    ensures
        vector_word(function, vd1, vs1, vt1, e1) & !0x0000_07C0u32 == vector_word(
            function,
            vd2,
            vs1,
            vt1,
            e1,
        ) & !0x0000_07C0u32,
        vd1 != vd2 ==> vector_word(function, vd1, vs1, vt1, e1) & 0x0000_07C0 != vector_word(
            function,
            vd2,
            vs1,
            vt1,
            e1,
        ) & 0x0000_07C0,
        vector_word(function, vd1, vs1, vt1, e1) & !0x0000_F800u32 == vector_word(
            function,
            vd1,
            vs2,
            vt1,
            e1,
        ) & !0x0000_F800u32,
        vs1 != vs2 ==> vector_word(function, vd1, vs1, vt1, e1) & 0x0000_F800 != vector_word(
            function,
            vd1,
            vs2,
            vt1,
            e1,
        ) & 0x0000_F800,
        vector_word(function, vd1, vs1, vt1, e1) & !0x001F_0000u32 == vector_word(
            function,
            vd1,
            vs1,
            vt2,
            e1,
        ) & !0x001F_0000u32,
        vt1 != vt2 ==> vector_word(function, vd1, vs1, vt1, e1) & 0x001F_0000 != vector_word(
            function,
            vd1,
            vs1,
            vt2,
            e1,
        ) & 0x001F_0000,
        vector_word(function, vd1, vs1, vt1, e1) & !0x01E0_0000u32 == vector_word(
            function,
            vd1,
            vs1,
            vt1,
            e2,
        ) & !0x01E0_0000u32,
        e1 != e2 ==> vector_word(function, vd1, vs1, vt1, e1) & 0x01E0_0000 != vector_word(
            function,
            vd1,
            vs1,
            vt1,
            e2,
        ) & 0x01E0_0000,
{
}

} // verus!
