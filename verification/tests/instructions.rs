use rsp_assembler::AssembleError;
use rsp_assembler::CP0Register;
use rsp_assembler::Element;
use rsp_assembler::E;
use rsp_assembler::GPR;
use rsp_assembler::RSPAssembler;
use rsp_assembler::VR;

fn one_word(f: impl FnOnce(&mut RSPAssembler)) -> u32 {
    let mut a = RSPAssembler::new(0);
    f(&mut a);
    assert_eq!(a.words().len(), 1);
    a.words()[0]
}

#[test]
fn main_immediate_mnemonics_encode_documented_opcodes() {
    // Common operands: rt = T0 (8), rs = T1 (9), immediate 0x1234.
    assert_eq!(one_word(|a| a.write_addi(GPR::T0, GPR::T1, 0x1234)), 0x2128_1234);
    assert_eq!(one_word(|a| a.write_addiu(GPR::T0, GPR::T1, 0x1234)), 0x2528_1234);
    assert_eq!(one_word(|a| a.write_slti(GPR::T0, GPR::T1, 0x1234)), 0x2928_1234);
    assert_eq!(one_word(|a| a.write_sltiu(GPR::T0, GPR::T1, 0x1234)), 0x2D28_1234);
    assert_eq!(one_word(|a| a.write_andi(GPR::T0, GPR::T1, 0x1234)), 0x3128_1234);
    assert_eq!(one_word(|a| a.write_ori(GPR::T0, GPR::T1, 0x1234)), 0x3528_1234);
    assert_eq!(one_word(|a| a.write_xori(GPR::T0, GPR::T1, 0x1234)), 0x3928_1234);
    assert_eq!(one_word(|a| a.write_lb(GPR::T0, GPR::T1, 0x1234)), 0x8128_1234);
    assert_eq!(one_word(|a| a.write_lh(GPR::T0, GPR::T1, 0x1234)), 0x8528_1234);
    assert_eq!(one_word(|a| a.write_lw(GPR::T0, GPR::T1, 0x1234)), 0x8D28_1234);
    assert_eq!(one_word(|a| a.write_lbu(GPR::T0, GPR::T1, 0x1234)), 0x9128_1234);
    assert_eq!(one_word(|a| a.write_lhu(GPR::T0, GPR::T1, 0x1234)), 0x9528_1234);
    assert_eq!(one_word(|a| a.write_lwu(GPR::T0, GPR::T1, 0x1234)), 0x9D28_1234);
    assert_eq!(one_word(|a| a.write_sb(GPR::T0, GPR::T1, 0x1234)), 0xA128_1234);
    assert_eq!(one_word(|a| a.write_sh(GPR::T0, GPR::T1, 0x1234)), 0xA528_1234);
    assert_eq!(one_word(|a| a.write_sw(GPR::T0, GPR::T1, 0x1234)), 0xAD28_1234);
}

#[test]
fn negative_immediate_keeps_its_16_bit_pattern() {
    assert_eq!(one_word(|a| a.write_addi(GPR::T0, GPR::T1, -1)), 0x2128_FFFF);
    assert_eq!(one_word(|a| a.write_lw(GPR::T0, GPR::T1, -4)), 0x8D28_FFFC);
}

#[test]
fn lui_loads_the_upper_half_from_register_zero() {
    assert_eq!(one_word(|a| a.write_lui(GPR::T0, 0xABCD)), 0x3C08_ABCD);
}

#[test]
fn bgtz_encodes_branch_opcode_and_displacement() {
    // rs = T1 (9), rt field fixed to zero, displacement -4 = 0xFFFC.
    assert_eq!(one_word(|a| a.write_bgtz(GPR::T1, -4)), 0x1D20_FFFC);
}

#[test]
fn jump_to_aligned_address_encodes_word_address() {
    let mut a = RSPAssembler::new(0);
    assert_eq!(a.write_j(0x1000), Ok(()));
    assert_eq!(a.words().len(), 1);
    let word = a.words()[0];
    assert_eq!(word, 0x0800_0400);
    assert_eq!(word & 0x03FF_FFFF, 0x1000 >> 2);
    assert_eq!(word >> 26, 2);
}

#[test]
fn jump_to_unaligned_address_fails_and_emits_nothing() {
    let mut a = RSPAssembler::new(0);
    assert_eq!(a.write_j(0x1001), Err(AssembleError::UnalignedJumpTarget));
    assert_eq!(a.write_j(0x1002), Err(AssembleError::UnalignedJumpTarget));
    assert!(a.words().is_empty());
}

#[test]
fn jump_beyond_the_26_bit_target_field_fails() {
    let mut a = RSPAssembler::new(0);
    assert_eq!(a.write_j(0x1000_0000), Err(AssembleError::JumpTargetOutOfRange));
    assert!(a.words().is_empty());
    assert_eq!(a.write_j(0x0FFF_FFFC), Ok(()));
    assert_eq!(a.words()[0], 0x0BFF_FFFF);
}

#[test]
fn jump_and_link_shares_the_jump_domain() {
    let mut a = RSPAssembler::new(0);
    assert_eq!(a.write_jal(0x1000), Ok(()));
    assert_eq!(a.words()[0], 0x0C00_0400);
    assert_eq!(a.write_jal(0x1001), Err(AssembleError::UnalignedJumpTarget));
    assert_eq!(a.write_jal(0x1000_0000), Err(AssembleError::JumpTargetOutOfRange));
    assert_eq!(a.words().len(), 1);
}

#[test]
fn sll_encodes_shift_amount_and_rejects_wide_ones() {
    let mut a = RSPAssembler::new(0);
    assert_eq!(a.write_sll(GPR::T0, GPR::T1, 4), Ok(()));
    assert_eq!(a.words()[0], 0x0009_4100);
    assert_eq!(a.write_sll(GPR::T0, GPR::T1, 32), Err(AssembleError::ShiftAmountOutOfRange));
    assert_eq!(a.words().len(), 1);
}

#[test]
fn break_encodes_its_function_code() {
    assert_eq!(one_word(|a| a.write_break()), 0x0000_000D);
}

#[test]
fn or_encodes_the_register_register_layout() {
    // rd = T2 (10), rs = T0 (8), rt = T1 (9).
    assert_eq!(one_word(|a| a.write_or(GPR::T2, GPR::T0, GPR::T1)), 0x0109_5025);
}

#[test]
fn mtc0_encodes_the_coprocessor_move_layout() {
    // sub-op 4, rt = T0 (8), control register SPStatus (4), low bits zero.
    assert_eq!(one_word(|a| a.write_mtc0(CP0Register::SPStatus, GPR::T0)), 0x4088_2000);
    assert_eq!(one_word(|a| a.write_mtc0(CP0Register::DPClock, GPR::RA)), 0x409F_6000);
}

#[test]
fn lqv_scales_the_byte_offset_by_sixteen() {
    let mut a = RSPAssembler::new(0);
    assert_eq!(a.write_lqv(VR::V3, E::_0, 0x10, GPR::T0), Ok(()));
    assert_eq!(a.words().len(), 1);
    let word = a.words()[0];
    assert_eq!(word, 0xC903_2001);
    assert_eq!(word & 0x7F, 1);
}

#[test]
fn lqv_rejects_offsets_that_are_not_multiples_of_sixteen() {
    let mut a = RSPAssembler::new(0);
    assert_eq!(a.write_lqv(VR::V3, E::_0, 0x08, GPR::T0), Err(AssembleError::UnalignedVectorOffset));
    assert!(a.words().is_empty());
}

#[test]
fn lqv_rejects_offsets_beyond_the_signed_7_bit_field() {
    let mut a = RSPAssembler::new(0);
    assert_eq!(a.write_lqv(VR::V3, E::_0, 0x400, GPR::T0), Err(AssembleError::VectorOffsetOutOfRange));
    assert_eq!(a.write_lqv(VR::V3, E::_0, -0x410, GPR::T0), Err(AssembleError::VectorOffsetOutOfRange));
    assert!(a.words().is_empty());
    assert_eq!(a.write_lqv(VR::V3, E::_0, 0x3F0, GPR::T0), Ok(()));
    assert_eq!(a.words()[0] & 0x7F, 0x3F);
}

#[test]
fn lqv_encodes_negative_offsets_in_twos_complement() {
    let mut a = RSPAssembler::new(0);
    assert_eq!(a.write_lqv(VR::V3, E::_0, -0x10, GPR::T0), Ok(()));
    assert_eq!(a.words()[0], 0xC903_207F);
}

#[test]
fn sqv_mirrors_lqv_with_the_store_opcode() {
    let mut a = RSPAssembler::new(0);
    assert_eq!(a.write_sqv(VR::V3, E::_0, 0x10, GPR::T0), Ok(()));
    assert_eq!(a.words()[0], 0xE903_2001);
    assert_eq!(a.write_sqv(VR::V3, E::_0, 0x08, GPR::T0), Err(AssembleError::UnalignedVectorOffset));
    assert_eq!(a.words().len(), 1);
}

#[test]
fn vector_arithmetic_mnemonics_encode_documented_function_codes() {
    // Common operands: vd = V1, vt = V2, vs = V3, whole-register selector.
    let base = 0x4A02_1840;
    assert_eq!(one_word(|a| a.write_vmulf(VR::V1, VR::V2, VR::V3, Element::All)), base);
    assert_eq!(one_word(|a| a.write_vmudm(VR::V1, VR::V2, VR::V3, Element::All)), base | 5);
    assert_eq!(one_word(|a| a.write_vmudn(VR::V1, VR::V2, VR::V3, Element::All)), base | 6);
    assert_eq!(one_word(|a| a.write_vmudh(VR::V1, VR::V2, VR::V3, Element::All)), base | 7);
    assert_eq!(one_word(|a| a.write_vmacf(VR::V1, VR::V2, VR::V3, Element::All)), base | 8);
    assert_eq!(one_word(|a| a.write_vmadm(VR::V1, VR::V2, VR::V3, Element::All)), base | 13);
    assert_eq!(one_word(|a| a.write_vmadn(VR::V1, VR::V2, VR::V3, Element::All)), base | 14);
    assert_eq!(one_word(|a| a.write_vmadh(VR::V1, VR::V2, VR::V3, Element::All)), base | 15);
    assert_eq!(one_word(|a| a.write_vxor(VR::V1, VR::V2, VR::V3, Element::All)), base | 44);
}

#[test]
fn vsar_takes_the_full_16_lane_selector() {
    // vd = V1, vt = V2, vs = V3, lane 8, function code 29.
    assert_eq!(one_word(|a| a.write_vsar(VR::V1, VR::V2, VR::V3, E::_8)), 0x4B02_185D);
}
