//! The assembler: one method per instruction mnemonic, each encoding one
//! 32-bit word (pseudo-instructions up to two) and appending it to the
//! instruction stream the assembler owns.
//!
//! Every method's postcondition names the exact word appended, through the
//! layout spec functions of [`crate::word`]. Requests the hardware cannot
//! encode (a misaligned jump target, an over-wide shift amount, a misaligned
//! or over-long vector offset) are rejected with an [`AssembleError`] and
//! leave the stream untouched: a best-effort word would be silently wrong
//! once loaded into hardware.

use vstd::arithmetic::div_mod::lemma_fundamental_div_mod;
use vstd::arithmetic::div_mod::lemma_mod_multiples_vanish;
use vstd::prelude::*;

use crate::opcode::CP0_MTC0;
use crate::opcode::CP2_VECTOR;
use crate::opcode::FN_BREAK;
use crate::opcode::FN_OR;
use crate::opcode::FN_SLL;
use crate::opcode::OP_ADDI;
use crate::opcode::OP_ADDIU;
use crate::opcode::OP_ANDI;
use crate::opcode::OP_BGTZ;
use crate::opcode::OP_COP0;
use crate::opcode::OP_COP2;
use crate::opcode::OP_J;
use crate::opcode::OP_JAL;
use crate::opcode::OP_LB;
use crate::opcode::OP_LBU;
use crate::opcode::OP_LH;
use crate::opcode::OP_LHU;
use crate::opcode::OP_LUI;
use crate::opcode::OP_LW;
use crate::opcode::OP_LWC2;
use crate::opcode::OP_LWU;
use crate::opcode::OP_ORI;
use crate::opcode::OP_SB;
use crate::opcode::OP_SH;
use crate::opcode::OP_SLTI;
use crate::opcode::OP_SLTIU;
use crate::opcode::OP_SPECIAL;
use crate::opcode::OP_SW;
use crate::opcode::OP_SWC2;
use crate::opcode::OP_XORI;
use crate::opcode::VOP_VMACF;
use crate::opcode::VOP_VMADH;
use crate::opcode::VOP_VMADM;
use crate::opcode::VOP_VMADN;
use crate::opcode::VOP_VMUDH;
use crate::opcode::VOP_VMUDM;
use crate::opcode::VOP_VMUDN;
use crate::opcode::VOP_VMULF;
use crate::opcode::VOP_VSAR;
use crate::opcode::VOP_VXOR;
use crate::opcode::WC2_QV;
use crate::operand::CP0Register;
use crate::operand::Element;
use crate::operand::E;
use crate::operand::GPR;
use crate::operand::VR;
use crate::word::backward_branch_imm;
use crate::word::cop0_word;
use crate::word::main_immediate_word;
use crate::word::main_jump_word;
use crate::word::special_word;
use crate::word::vector_word;
use crate::word::wc2_word;

verus! {

/// Why an instruction request was rejected. Every rejection is a hard
/// encode-time failure: no partial or best-effort word is ever emitted.
#[derive(Clone, Copy, Debug, PartialEq, Eq, Structural)]
pub enum AssembleError {
    /// A jump destination whose low two bits are not zero.
    UnalignedJumpTarget,
    /// A word-aligned jump destination whose word address exceeds 26 bits.
    JumpTargetOutOfRange,
    /// A shift amount that does not fit the 5-bit field.
    ShiftAmountOutOfRange,
    /// A vector load/store byte offset that is not a multiple of 16.
    UnalignedVectorOffset,
    /// A scaled vector load/store offset outside the signed 7-bit field.
    VectorOffsetOutOfRange,
}

/// An immutable snapshot of the stream's write offset, captured before a
/// branch site is known and consumed by one later backward-branch encoding.
pub struct RSMAssemblerJumpTarget {
    offset: usize,
}

impl RSMAssemblerJumpTarget {
    /// The byte offset this target was captured at.
    pub closed spec fn spec_offset(self) -> int {
        self.offset as int
    }

    pub fn new(offset: usize) -> (r: Self)
        ensures
            r.spec_offset() == offset,
    {
        Self { offset }
    }
}

/// The assembler. It owns the instruction stream: a start byte offset and
/// the words appended so far, each exactly one encoded instruction. The
/// view is the sequence of emitted words; the write cursor advances by four
/// bytes per word.
pub struct RSPAssembler {
    start: usize,
    words: Vec<u32>,
}

impl View for RSPAssembler {
    type V = Seq<u32>;

    closed spec fn view(&self) -> Seq<u32> {
        self.words@
    }
}

impl RSPAssembler {
    /// The byte offset the stream was constructed at.
    pub closed spec fn start_offset(self) -> int {
        self.start as int
    }

    /// The current write cursor: the start offset plus four bytes per
    /// emitted word.
    pub open spec fn cursor(self) -> int {
        self.start_offset() + 4 * self@.len()
    }

    pub fn new(start_offset: usize) -> (r: Self)
        ensures
            r@ == Seq::<u32>::empty(),
            r.start_offset() == start_offset,
    {
        Self { start: start_offset, words: Vec::new() }
    }

    /// The words emitted so far, oldest first.
    pub fn words(&self) -> (r: &Vec<u32>)
        ensures
            r@ == self@,
    {
        &self.words
    }

    /// The current write cursor as a byte offset.
    fn offset(&self) -> (r: usize)
        requires
            self.cursor() <= usize::MAX,
        ensures
            r == self.cursor(),
    {
        self.start + 4 * self.words.len()
    }

    /// Captures the current write offset for a later backward branch.
    pub fn get_jump_target(&self) -> (r: RSMAssemblerJumpTarget)
        requires
            self.cursor() <= usize::MAX,
        ensures
            r.spec_offset() == self.cursor(),
    {
        RSMAssemblerJumpTarget::new(self.offset())
    }

    /// Appends one finished instruction word to the stream.
    fn write(&mut self, instruction: u32)
        ensures
            final(self)@ == old(self)@.push(instruction),
            final(self).start_offset() == old(self).start_offset(),
    {
        self.words.push(instruction);
    }

    /// Encodes the main-immediate layout.
    fn write_main_immediate(&mut self, op: u32, rt: GPR, rs: GPR, imm: u16)
        requires
            op < 64,
        ensures
            final(self)@ == old(self)@.push(main_immediate_word(op, rs.value(), rt.value(), imm)),
            final(self).start_offset() == old(self).start_offset(),
    {
        let instruction: u32 = (imm as u32) | (rt.index() << 16) | (rs.index() << 21) | (op << 26);
        self.write(instruction);
    }

    /// Encodes the main-jump layout from an already word-addressed target.
    fn write_main_jump(&mut self, op: u32, jump_target_shifted_by_2: u32)
        requires
            op < 64,
            jump_target_shifted_by_2 < 0x400_0000,
        ensures
            final(self)@ == old(self)@.push(main_jump_word(op, jump_target_shifted_by_2)),
            final(self).start_offset() == old(self).start_offset(),
    {
        let instruction: u32 = jump_target_shifted_by_2 | (op << 26);
        self.write(instruction);
    }

    /// Encodes the SPECIAL register-register layout.
    fn write_special(&mut self, function: u32, sa: u32, rd: GPR, rs: GPR, rt: GPR)
        requires
            function < 64,
            sa < 32,
        ensures
            final(self)@ == old(self)@.push(
                special_word(function, sa, rd.value(), rs.value(), rt.value()),
            ),
            final(self).start_offset() == old(self).start_offset(),
    {
        let instruction: u32 = function | (sa << 6) | (rd.index() << 11) | (rt.index() << 16) | (
        rs.index() << 21) | (OP_SPECIAL << 26);
        self.write(instruction);
    }

    /// Encodes the coprocessor-0 move layout.
    fn write_cop0(&mut self, cp0op: u32, cp0register: CP0Register, rt: GPR)
        requires
            cp0op < 32,
        ensures
            final(self)@ == old(self)@.push(cop0_word(cp0op, cp0register.value(), rt.value())),
            final(self).start_offset() == old(self).start_offset(),
    {
        let instruction: u32 = (cp0register.index() << 11) | (rt.index() << 16) | (cp0op << 21) | (
        OP_COP0 << 26);
        self.write(instruction);
    }

    /// Encodes the vector load/store layout from an already scaled signed
    /// 7-bit displacement.
    fn write_wc2(&mut self, op: u32, wc2op: u32, vt: VR, element: E, imm7: i32, base: GPR)
        requires
            op < 64,
            wc2op < 32,
            -64 <= imm7 <= 63,
        ensures
            final(self)@ == old(self)@.push(
                wc2_word(
                    op,
                    base.value(),
                    vt.value(),
                    wc2op,
                    element.value(),
                    (imm7 as u32) & 0x7F,
                ),
            ),
            final(self).start_offset() == old(self).start_offset(),
    {
        let offset_bits: u32 = (#[verifier::truncate] (imm7 as u32)) & 0x7F;
        let instruction: u32 = offset_bits | (element.index() << 7) | (wc2op << 11) | (vt.index()
            << 16) | (base.index() << 21) | (op << 26);
        self.write(instruction);
    }

    /// Encodes the vector arithmetic layout with a grouped lane selector.
    fn write_vector(&mut self, vector_op: u32, vd: VR, vt: VR, vs: VR, e: Element)
        requires
            vector_op < 64,
        ensures
            final(self)@ == old(self)@.push(
                vector_word(vector_op, vd.value(), vs.value(), vt.value(), e.value()),
            ),
            final(self).start_offset() == old(self).start_offset(),
    {
        let instruction: u32 = vector_op | (vd.index() << 6) | (vs.index() << 11) | (vt.index()
            << 16) | (e.index() << 21) | (CP2_VECTOR << 21) | (OP_COP2 << 26);
        self.write(instruction);
    }

    /// Encodes the vector arithmetic layout with a full 16-lane selector,
    /// as the accumulator-shift instruction takes it. The selector shares
    /// the field of the grouped form but with its own legal-value domain.
    fn write_vector_e(&mut self, vector_op: u32, vd: VR, vt: VR, vs: VR, e: E)
        requires
            vector_op < 64,
        ensures
            final(self)@ == old(self)@.push(
                vector_word(vector_op, vd.value(), vs.value(), vt.value(), e.value()),
            ),
            final(self).start_offset() == old(self).start_offset(),
    {
        let instruction: u32 = vector_op | (vd.index() << 6) | (vs.index() << 11) | (vt.index()
            << 16) | (e.index() << 21) | (CP2_VECTOR << 21) | (OP_COP2 << 26);
        self.write(instruction);
    }

    // Main instructions
    pub fn write_addi(&mut self, rt: GPR, rs: GPR, imm: i16)
        ensures
            final(self)@ == old(self)@.push(
                main_immediate_word(OP_ADDI, rs.value(), rt.value(), imm as u16),
            ),
            final(self).start_offset() == old(self).start_offset(),
    {
        self.write_main_immediate(OP_ADDI, rt, rs, #[verifier::truncate] (imm as u16));
    }

    pub fn write_addiu(&mut self, rt: GPR, rs: GPR, imm: i16)
        ensures
            final(self)@ == old(self)@.push(
                main_immediate_word(OP_ADDIU, rs.value(), rt.value(), imm as u16),
            ),
            final(self).start_offset() == old(self).start_offset(),
    {
        self.write_main_immediate(OP_ADDIU, rt, rs, #[verifier::truncate] (imm as u16));
    }

    pub fn write_andi(&mut self, rt: GPR, rs: GPR, imm: u16)
        ensures
            final(self)@ == old(self)@.push(
                main_immediate_word(OP_ANDI, rs.value(), rt.value(), imm),
            ),
            final(self).start_offset() == old(self).start_offset(),
    {
        self.write_main_immediate(OP_ANDI, rt, rs, imm);
    }

    pub fn write_lb(&mut self, rt: GPR, rs: GPR, imm: i16)
        ensures
            final(self)@ == old(self)@.push(
                main_immediate_word(OP_LB, rs.value(), rt.value(), imm as u16),
            ),
            final(self).start_offset() == old(self).start_offset(),
    {
        self.write_main_immediate(OP_LB, rt, rs, #[verifier::truncate] (imm as u16));
    }

    pub fn write_lbu(&mut self, rt: GPR, rs: GPR, imm: i16)
        ensures
            final(self)@ == old(self)@.push(
                main_immediate_word(OP_LBU, rs.value(), rt.value(), imm as u16),
            ),
            final(self).start_offset() == old(self).start_offset(),
    {
        self.write_main_immediate(OP_LBU, rt, rs, #[verifier::truncate] (imm as u16));
    }

    pub fn write_lh(&mut self, rt: GPR, rs: GPR, imm: i16)
        ensures
            final(self)@ == old(self)@.push(
                main_immediate_word(OP_LH, rs.value(), rt.value(), imm as u16),
            ),
            final(self).start_offset() == old(self).start_offset(),
    {
        self.write_main_immediate(OP_LH, rt, rs, #[verifier::truncate] (imm as u16));
    }

    pub fn write_lhu(&mut self, rt: GPR, rs: GPR, imm: i16)
        ensures
            final(self)@ == old(self)@.push(
                main_immediate_word(OP_LHU, rs.value(), rt.value(), imm as u16),
            ),
            final(self).start_offset() == old(self).start_offset(),
    {
        self.write_main_immediate(OP_LHU, rt, rs, #[verifier::truncate] (imm as u16));
    }

    pub fn write_lw(&mut self, rt: GPR, rs: GPR, imm: i16)
        ensures
            final(self)@ == old(self)@.push(
                main_immediate_word(OP_LW, rs.value(), rt.value(), imm as u16),
            ),
            final(self).start_offset() == old(self).start_offset(),
    {
        self.write_main_immediate(OP_LW, rt, rs, #[verifier::truncate] (imm as u16));
    }

    pub fn write_lwu(&mut self, rt: GPR, rs: GPR, imm: i16)
        ensures
            final(self)@ == old(self)@.push(
                main_immediate_word(OP_LWU, rs.value(), rt.value(), imm as u16),
            ),
            final(self).start_offset() == old(self).start_offset(),
    {
        self.write_main_immediate(OP_LWU, rt, rs, #[verifier::truncate] (imm as u16));
    }

    pub fn write_sb(&mut self, rt: GPR, rs: GPR, imm: i16)
        ensures
            final(self)@ == old(self)@.push(
                main_immediate_word(OP_SB, rs.value(), rt.value(), imm as u16),
            ),
            final(self).start_offset() == old(self).start_offset(),
    {
        self.write_main_immediate(OP_SB, rt, rs, #[verifier::truncate] (imm as u16));
    }

    pub fn write_sh(&mut self, rt: GPR, rs: GPR, imm: i16)
        ensures
            final(self)@ == old(self)@.push(
                main_immediate_word(OP_SH, rs.value(), rt.value(), imm as u16),
            ),
            final(self).start_offset() == old(self).start_offset(),
    {
        self.write_main_immediate(OP_SH, rt, rs, #[verifier::truncate] (imm as u16));
    }

    pub fn write_slti(&mut self, rt: GPR, rs: GPR, imm: i16)
        ensures
            final(self)@ == old(self)@.push(
                main_immediate_word(OP_SLTI, rs.value(), rt.value(), imm as u16),
            ),
            final(self).start_offset() == old(self).start_offset(),
    {
        self.write_main_immediate(OP_SLTI, rt, rs, #[verifier::truncate] (imm as u16));
    }

    pub fn write_sltiu(&mut self, rt: GPR, rs: GPR, imm: i16)
        ensures
            final(self)@ == old(self)@.push(
                main_immediate_word(OP_SLTIU, rs.value(), rt.value(), imm as u16),
            ),
            final(self).start_offset() == old(self).start_offset(),
    {
        self.write_main_immediate(OP_SLTIU, rt, rs, #[verifier::truncate] (imm as u16));
    }

    pub fn write_sw(&mut self, rt: GPR, rs: GPR, imm: i16)
        ensures
            final(self)@ == old(self)@.push(
                main_immediate_word(OP_SW, rs.value(), rt.value(), imm as u16),
            ),
            final(self).start_offset() == old(self).start_offset(),
    {
        self.write_main_immediate(OP_SW, rt, rs, #[verifier::truncate] (imm as u16));
    }

    /// Loads a 32-bit constant into `rt` with the fewest words: a
    /// load-upper-immediate when the upper half is non-zero, an
    /// or-immediate when the lower half is non-zero, and a single
    /// or-immediate from the always-zero register when the upper half is
    /// zero. One or two instructions.
    pub fn write_li(&mut self, rt: GPR, imm: u32)
        ensures
            imm & 0xFFFF_0000 != 0 && imm & 0xFFFF != 0 ==> final(self)@ == old(self)@.push(
                main_immediate_word(OP_LUI, 0, rt.value(), (imm >> 16) as u16),
            ).push(main_immediate_word(OP_ORI, rt.value(), rt.value(), imm as u16)),
            imm & 0xFFFF_0000 != 0 && imm & 0xFFFF == 0 ==> final(self)@ == old(self)@.push(
                main_immediate_word(OP_LUI, 0, rt.value(), (imm >> 16) as u16),
            ),
            imm & 0xFFFF_0000 == 0 ==> final(self)@ == old(self)@.push(
                main_immediate_word(OP_ORI, 0, rt.value(), imm as u16),
            ),
            final(self).start_offset() == old(self).start_offset(),
    {
        if (imm & 0xFFFF_0000) != 0 {
            proof {
                assert(imm >> 16 < 0x10000) by (bit_vector);
            }
            self.write_lui(rt, (imm >> 16) as u16);
            if (imm & 0xFFFF) != 0 {
                self.write_ori(rt, rt, #[verifier::truncate] (imm as u16));
            }
        } else {
            self.write_ori(rt, GPR::R0, #[verifier::truncate] (imm as u16));
        }
    }

    pub fn write_lui(&mut self, rt: GPR, imm: u16)
        ensures
            final(self)@ == old(self)@.push(main_immediate_word(OP_LUI, 0, rt.value(), imm)),
            final(self).start_offset() == old(self).start_offset(),
    {
        self.write_main_immediate(OP_LUI, rt, GPR::R0, imm);
    }

    pub fn write_ori(&mut self, rt: GPR, rs: GPR, imm: u16)
        ensures
            final(self)@ == old(self)@.push(
                main_immediate_word(OP_ORI, rs.value(), rt.value(), imm),
            ),
            final(self).start_offset() == old(self).start_offset(),
    {
        self.write_main_immediate(OP_ORI, rt, rs, imm);
    }

    pub fn write_xori(&mut self, rt: GPR, rs: GPR, imm: u16)
        ensures
            final(self)@ == old(self)@.push(
                main_immediate_word(OP_XORI, rs.value(), rt.value(), imm),
            ),
            final(self).start_offset() == old(self).start_offset(),
    {
        self.write_main_immediate(OP_XORI, rt, rs, imm);
    }

    /// Unconditional jump to a byte address. The destination must be
    /// word-aligned and its word address must fit the 26-bit target field.
    pub fn write_j(&mut self, destination: u32) -> (r: Result<(), AssembleError>)
        ensures
            r is Ok <==> destination & 3 == 0 && destination >> 2 < 0x400_0000,
            r is Ok ==> final(self)@ == old(self)@.push(main_jump_word(OP_J, destination >> 2)),
            destination & 3 != 0 ==> (r matches Err(e) && e == AssembleError::UnalignedJumpTarget),
            destination & 3 == 0 && destination >> 2 >= 0x400_0000 ==> (r matches Err(e)
                && e == AssembleError::JumpTargetOutOfRange),
            r is Err ==> final(self)@ == old(self)@,
            final(self).start_offset() == old(self).start_offset(),
    {
        if destination & 3 != 0 {
            return Err(AssembleError::UnalignedJumpTarget);
        }
        let shifted: u32 = destination >> 2;
        if shifted >= 0x400_0000 {
            return Err(AssembleError::JumpTargetOutOfRange);
        }
        self.write_main_jump(OP_J, shifted);
        Ok(())
    }

    /// Jump-and-link to a byte address, with the same domain as `write_j`.
    pub fn write_jal(&mut self, destination: u32) -> (r: Result<(), AssembleError>)
        ensures
            r is Ok <==> destination & 3 == 0 && destination >> 2 < 0x400_0000,
            r is Ok ==> final(self)@ == old(self)@.push(main_jump_word(OP_JAL, destination >> 2)),
            destination & 3 != 0 ==> (r matches Err(e) && e == AssembleError::UnalignedJumpTarget),
            destination & 3 == 0 && destination >> 2 >= 0x400_0000 ==> (r matches Err(e)
                && e == AssembleError::JumpTargetOutOfRange),
            r is Err ==> final(self)@ == old(self)@,
            final(self).start_offset() == old(self).start_offset(),
    {
        if destination & 3 != 0 {
            return Err(AssembleError::UnalignedJumpTarget);
        }
        let shifted: u32 = destination >> 2;
        if shifted >= 0x400_0000 {
            return Err(AssembleError::JumpTargetOutOfRange);
        }
        self.write_main_jump(OP_JAL, shifted);
        Ok(())
    }

    /// Branch if `rs` is greater than zero, with the raw 16-bit
    /// displacement pattern supplied by the caller.
    pub fn write_bgtz(&mut self, rs: GPR, offset: i16)
        ensures
            final(self)@ == old(self)@.push(
                main_immediate_word(OP_BGTZ, rs.value(), 0, offset as u16),
            ),
            final(self).start_offset() == old(self).start_offset(),
    {
        self.write_main_immediate(OP_BGTZ, GPR::R0, rs, #[verifier::truncate] (offset as u16));
    }

    /// Branch if `rs` is greater than zero, backwards to a captured jump
    /// target: the displacement is the byte distance reduced modulo 4096,
    /// scaled to words and decremented by one, exactly as the hardware's
    /// narrow backward-branch window takes it.
    pub fn write_bgtz_backwards(&mut self, rs: GPR, target: &RSMAssemblerJumpTarget)
        requires
            old(self).cursor() <= usize::MAX,
        ensures
            final(self)@ == old(self)@.push(
                main_immediate_word(
                    OP_BGTZ,
                    rs.value(),
                    0,
                    backward_branch_imm(target.spec_offset(), old(self).cursor()),
                ),
            ),
            final(self).start_offset() == old(self).start_offset(),
    {
        let cur: usize = self.offset();
        let t: usize = target.offset;
        let diff: usize = ((t % 4096) + 4096 - (cur % 4096)) % 4096;
        proof {
            lemma_mod_of_difference(t as int, cur as int);
        }
        let word_count: usize = diff / 4;
        let imm: i16 = if word_count == 0 {
            -1
        } else {
            (word_count - 1) as i16
        };
        proof {
            assert((-1i16) as u16 == 0xFFFFu16) by (bit_vector);
            if word_count != 0 {
                assert(imm as u16 == word_count - 1) by (bit_vector)
                    requires
                        imm == (word_count - 1) as i16,
                        0 < word_count < 1024,
                ;
            }
        }
        self.write_bgtz(rs, imm);
    }

    pub fn write_mtc0(&mut self, cp0register: CP0Register, rt: GPR)
        ensures
            final(self)@ == old(self)@.push(cop0_word(CP0_MTC0, cp0register.value(), rt.value())),
            final(self).start_offset() == old(self).start_offset(),
    {
        self.write_cop0(CP0_MTC0, cp0register, rt);
    }

    // Special instructions
    /// Shift `rt` left logically by `sa` into `rd`. The shift amount must
    /// fit the 5-bit field.
    pub fn write_sll(&mut self, rd: GPR, rt: GPR, sa: u32) -> (r: Result<(), AssembleError>)
        ensures
            r is Ok <==> sa < 32,
            sa < 32 ==> final(self)@ == old(self)@.push(
                special_word(FN_SLL, sa, rd.value(), 0, rt.value()),
            ),
            sa >= 32 ==> (r matches Err(e) && e == AssembleError::ShiftAmountOutOfRange)
                && final(self)@ == old(self)@,
            final(self).start_offset() == old(self).start_offset(),
    {
        if sa >= 32 {
            return Err(AssembleError::ShiftAmountOutOfRange);
        }
        self.write_special(FN_SLL, sa, rd, GPR::R0, rt);
        Ok(())
    }

    /// The canonical no-op: shift-left-logical of the always-zero register
    /// by zero into the always-zero register, the all-zero word.
    pub fn write_nop(&mut self)
        ensures
            final(self)@ == old(self)@.push(0u32),
            final(self).start_offset() == old(self).start_offset(),
    {
        proof {
            assert(special_word(FN_SLL, 0, 0, 0, 0) == 0u32) by (bit_vector);
        }
        self.write_special(FN_SLL, 0, GPR::R0, GPR::R0, GPR::R0);
    }

    pub fn write_break(&mut self)
        ensures
            final(self)@ == old(self)@.push(special_word(FN_BREAK, 0, 0, 0, 0)),
            final(self).start_offset() == old(self).start_offset(),
    {
        self.write_special(FN_BREAK, 0, GPR::R0, GPR::R0, GPR::R0);
    }

    pub fn write_or(&mut self, rd: GPR, rs: GPR, rt: GPR)
        ensures
            final(self)@ == old(self)@.push(
                special_word(FN_OR, 0, rd.value(), rs.value(), rt.value()),
            ),
            final(self).start_offset() == old(self).start_offset(),
    {
        self.write_special(FN_OR, 0, rd, rs, rt);
    }

    // Vector load/store instructions
    /// Loads a whole vector register from `base` plus a byte offset. The
    /// offset must be a multiple of 16 and, scaled down by 16, fit the
    /// signed 7-bit displacement field.
    pub fn write_lqv(&mut self, vt: VR, element: E, offset: i32, base: GPR) -> (r: Result<
        (),
        AssembleError,
    >)
        ensures
            r is Ok <==> offset & 0xF == 0 && -64 <= offset >> 4 <= 63,
            r is Ok ==> final(self)@ == old(self)@.push(
                wc2_word(
                    OP_LWC2,
                    base.value(),
                    vt.value(),
                    WC2_QV,
                    element.value(),
                    ((offset >> 4) as u32) & 0x7F,
                ),
            ),
            offset & 0xF != 0 ==> (r matches Err(e) && e == AssembleError::UnalignedVectorOffset),
            offset & 0xF == 0 && !(-64 <= offset >> 4 <= 63) ==> (r matches Err(e)
                && e == AssembleError::VectorOffsetOutOfRange),
            r is Err ==> final(self)@ == old(self)@,
            final(self).start_offset() == old(self).start_offset(),
    {
        if offset & 0xF != 0 {
            return Err(AssembleError::UnalignedVectorOffset);
        }
        let scaled: i32 = offset >> 4;
        if scaled < -64 || scaled > 63 {
            return Err(AssembleError::VectorOffsetOutOfRange);
        }
        self.write_wc2(OP_LWC2, WC2_QV, vt, element, scaled, base);
        Ok(())
    }

    /// Stores a whole vector register, with the same domain as `write_lqv`.
    pub fn write_sqv(&mut self, vt: VR, element: E, offset: i32, base: GPR) -> (r: Result<
        (),
        AssembleError,
    >)
        ensures
            r is Ok <==> offset & 0xF == 0 && -64 <= offset >> 4 <= 63,
            r is Ok ==> final(self)@ == old(self)@.push(
                wc2_word(
                    OP_SWC2,
                    base.value(),
                    vt.value(),
                    WC2_QV,
                    element.value(),
                    ((offset >> 4) as u32) & 0x7F,
                ),
            ),
            offset & 0xF != 0 ==> (r matches Err(e) && e == AssembleError::UnalignedVectorOffset),
            offset & 0xF == 0 && !(-64 <= offset >> 4 <= 63) ==> (r matches Err(e)
                && e == AssembleError::VectorOffsetOutOfRange),
            r is Err ==> final(self)@ == old(self)@,
            final(self).start_offset() == old(self).start_offset(),
    {
        if offset & 0xF != 0 {
            return Err(AssembleError::UnalignedVectorOffset);
        }
        let scaled: i32 = offset >> 4;
        if scaled < -64 || scaled > 63 {
            return Err(AssembleError::VectorOffsetOutOfRange);
        }
        self.write_wc2(OP_SWC2, WC2_QV, vt, element, scaled, base);
        Ok(())
    }

    // Vector arithmetic instructions
    pub fn write_vmacf(&mut self, vd: VR, vt: VR, vs: VR, e: Element)
        ensures
            final(self)@ == old(self)@.push(
                vector_word(VOP_VMACF, vd.value(), vs.value(), vt.value(), e.value()),
            ),
            final(self).start_offset() == old(self).start_offset(),
    {
        self.write_vector(VOP_VMACF, vd, vt, vs, e);
    }

    pub fn write_vmadh(&mut self, vd: VR, vt: VR, vs: VR, e: Element)
        ensures
            final(self)@ == old(self)@.push(
                vector_word(VOP_VMADH, vd.value(), vs.value(), vt.value(), e.value()),
            ),
            final(self).start_offset() == old(self).start_offset(),
    {
        self.write_vector(VOP_VMADH, vd, vt, vs, e);
    }

    pub fn write_vmadm(&mut self, vd: VR, vt: VR, vs: VR, e: Element)
        ensures
            final(self)@ == old(self)@.push(
                vector_word(VOP_VMADM, vd.value(), vs.value(), vt.value(), e.value()),
            ),
            final(self).start_offset() == old(self).start_offset(),
    {
        self.write_vector(VOP_VMADM, vd, vt, vs, e);
    }

    pub fn write_vmadn(&mut self, vd: VR, vt: VR, vs: VR, e: Element)
        ensures
            final(self)@ == old(self)@.push(
                vector_word(VOP_VMADN, vd.value(), vs.value(), vt.value(), e.value()),
            ),
            final(self).start_offset() == old(self).start_offset(),
    {
        self.write_vector(VOP_VMADN, vd, vt, vs, e);
    }

    pub fn write_vmudh(&mut self, vd: VR, vt: VR, vs: VR, e: Element)
        ensures
            final(self)@ == old(self)@.push(
                vector_word(VOP_VMUDH, vd.value(), vs.value(), vt.value(), e.value()),
            ),
            final(self).start_offset() == old(self).start_offset(),
    {
        self.write_vector(VOP_VMUDH, vd, vt, vs, e);
    }

    pub fn write_vmudn(&mut self, vd: VR, vt: VR, vs: VR, e: Element)
        ensures
            final(self)@ == old(self)@.push(
                vector_word(VOP_VMUDN, vd.value(), vs.value(), vt.value(), e.value()),
            ),
            final(self).start_offset() == old(self).start_offset(),
    {
        self.write_vector(VOP_VMUDN, vd, vt, vs, e);
    }

    pub fn write_vmudm(&mut self, vd: VR, vt: VR, vs: VR, e: Element)
        ensures
            final(self)@ == old(self)@.push(
                vector_word(VOP_VMUDM, vd.value(), vs.value(), vt.value(), e.value()),
            ),
            final(self).start_offset() == old(self).start_offset(),
    {
        self.write_vector(VOP_VMUDM, vd, vt, vs, e);
    }

    pub fn write_vmulf(&mut self, vd: VR, vt: VR, vs: VR, e: Element)
        ensures
            final(self)@ == old(self)@.push(
                vector_word(VOP_VMULF, vd.value(), vs.value(), vt.value(), e.value()),
            ),
            final(self).start_offset() == old(self).start_offset(),
    {
        self.write_vector(VOP_VMULF, vd, vt, vs, e);
    }

    /// Reads an accumulator slice; the lane selector is the full 16-lane
    /// form.
    pub fn write_vsar(&mut self, vd: VR, vt: VR, vs: VR, e: E)
        ensures
            final(self)@ == old(self)@.push(
                vector_word(VOP_VSAR, vd.value(), vs.value(), vt.value(), e.value()),
            ),
            final(self).start_offset() == old(self).start_offset(),
    {
        self.write_vector_e(VOP_VSAR, vd, vt, vs, e);
    }

    pub fn write_vxor(&mut self, vd: VR, vt: VR, vs: VR, e: Element)
        ensures
            final(self)@ == old(self)@.push(
                vector_word(VOP_VXOR, vd.value(), vs.value(), vt.value(), e.value()),
            ),
            final(self).start_offset() == old(self).start_offset(),
    {
        self.write_vector(VOP_VXOR, vd, vt, vs, e);
    }
}

/// The distance reduced modulo 4096 can be computed from the two offsets'
/// own residues, which is how the encoder avoids the wraparound of a raw
/// subtraction.
proof fn lemma_mod_of_difference(t: int, c: int)
    requires
        t >= 0,
        c >= 0,
    ensures
        ((t % 4096) + 4096 - (c % 4096)) % 4096 == (t - c) % 4096,
{
    lemma_fundamental_div_mod(t, 4096);
    lemma_fundamental_div_mod(c, 4096);
    assert((t % 4096) + 4096 - (c % 4096) == 4096 * (1 - t / 4096 + c / 4096) + (t - c)) by {
        assert(t % 4096 == t - 4096 * (t / 4096));
        assert(c % 4096 == c - 4096 * (c / 4096));
    };
    lemma_mod_multiples_vanish(1 - t / 4096 + c / 4096, t - c, 4096);
}

} // verus!
