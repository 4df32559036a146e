use rsp_assembler::Element;
use rsp_assembler::GPR;
use rsp_assembler::RSPAssembler;
use rsp_assembler::VR;

#[test]
fn nop_is_the_all_zero_word() {
    let mut a = RSPAssembler::new(0);
    a.write_nop();
    assert_eq!(a.words().as_slice(), &[0u32]);
}

#[test]
fn li_with_both_halves_set_emits_lui_then_ori() {
    let mut a = RSPAssembler::new(0);
    a.write_li(GPR::T0, 0x1111_1111);
    assert_eq!(a.words().as_slice(), &[0x3C08_1111, 0x3508_1111]);
}

#[test]
fn li_of_zero_emits_one_ori_from_register_zero() {
    let mut a = RSPAssembler::new(0);
    a.write_li(GPR::T1, 0);
    assert_eq!(a.words().as_slice(), &[0x3409_0000]);
}

#[test]
fn li_with_only_the_upper_half_set_emits_one_lui() {
    let mut a = RSPAssembler::new(0);
    a.write_li(GPR::T0, 0x0002_0000);
    assert_eq!(a.words().as_slice(), &[0x3C08_0002]);
}

#[test]
fn li_with_only_the_lower_half_set_emits_one_ori() {
    let mut a = RSPAssembler::new(0);
    a.write_li(GPR::T0, 0x1234);
    assert_eq!(a.words().as_slice(), &[0x3408_1234]);
}

#[test]
fn bgtz_backwards_branches_to_a_captured_target() {
    let mut a = RSPAssembler::new(0);
    a.write_nop();
    let target = a.get_jump_target();
    a.write_nop();
    a.write_nop();
    a.write_bgtz_backwards(GPR::T0, &target);
    // Distance 4 - 12 reduced modulo 4096 is 4088 bytes; 1022 words minus
    // one gives the displacement 1021 = 0x3FD.
    assert_eq!(a.words()[3], 0x1D00_03FD);
}

#[test]
fn bgtz_backwards_to_the_immediately_preceding_word() {
    let mut a = RSPAssembler::new(0x1000);
    let target = a.get_jump_target();
    a.write_nop();
    a.write_bgtz_backwards(GPR::T1, &target);
    // Distance 0x1000 - 0x1004 reduced modulo 4096 is 4092 bytes; 1023
    // words minus one gives the displacement 1022 = 0x3FE.
    assert_eq!(a.words()[1], 0x1D20_03FE);
}

#[test]
fn assembling_a_wraparound_add_and_store_sequence() {
    // Load 0xFFFFFFFF, add 0x1234 unsigned (the hardware wraps modulo
    // 2^32 to 0x00001233), store the result to data-memory offset 0.
    let mut a = RSPAssembler::new(0);
    a.write_li(GPR::T0, 0xFFFF_FFFF);
    a.write_addiu(GPR::T1, GPR::T0, 0x1234);
    a.write_sw(GPR::T1, GPR::R0, 0);
    a.write_break();
    assert_eq!(
        a.words().as_slice(),
        &[0x3C08_FFFF, 0x3508_FFFF, 0x2509_1234, 0xAC09_0000, 0x0000_000D],
    );
    // The value the stored register holds under two's-complement hardware
    // semantics.
    assert_eq!(0xFFFF_FFFFu32.wrapping_add(0x1234), 0x0000_1233);
}

#[test]
fn field_isolation_samples_main_immediate() {
    let mut a1 = RSPAssembler::new(0);
    let mut a2 = RSPAssembler::new(0);
    a1.write_addi(GPR::T0, GPR::T1, 0x1234);
    a2.write_addi(GPR::T0, GPR::S3, 0x1234);
    // Only the rs field, bits 21..=25, differs.
    assert_eq!(a1.words()[0] ^ a2.words()[0], (9 ^ 19) << 21);
    let mut a3 = RSPAssembler::new(0);
    a3.write_addi(GPR::A0, GPR::T1, 0x1234);
    // Only the rt field, bits 16..=20, differs.
    assert_eq!(a1.words()[0] ^ a3.words()[0], (8 ^ 4) << 16);
    let mut a4 = RSPAssembler::new(0);
    a4.write_addi(GPR::T0, GPR::T1, 0x0234);
    // Only the immediate field, bits 0..=15, differs.
    assert_eq!(a1.words()[0] ^ a4.words()[0], 0x1000);
}

#[test]
fn field_isolation_samples_vector_arithmetic() {
    let mut a1 = RSPAssembler::new(0);
    let mut a2 = RSPAssembler::new(0);
    a1.write_vmulf(VR::V1, VR::V2, VR::V3, Element::All);
    a2.write_vmulf(VR::V1, VR::V2, VR::V3, Element::_0);
    // The whole-register and single-lane selectors differ only in the
    // element span, bits 21..=24.
    let diff = a1.words()[0] ^ a2.words()[0];
    assert_eq!(diff & !0x01E0_0000, 0);
    assert_eq!(diff, (0 ^ 8) << 21);
    let mut a3 = RSPAssembler::new(0);
    a3.write_vmulf(VR::V1, VR::V30, VR::V3, Element::All);
    // Only the vt field, bits 16..=20, differs.
    assert_eq!(a1.words()[0] ^ a3.words()[0], (2 ^ 30) << 16);
}

#[test]
fn field_isolation_samples_special_and_cop0() {
    let mut a1 = RSPAssembler::new(0);
    let mut a2 = RSPAssembler::new(0);
    assert_eq!(a1.write_sll(GPR::T0, GPR::T1, 4), Ok(()));
    assert_eq!(a2.write_sll(GPR::T0, GPR::T1, 21), Ok(()));
    // Only the shift-amount field, bits 6..=10, differs.
    assert_eq!(a1.words()[0] ^ a2.words()[0], (4 ^ 21) << 6);
    let mut a3 = RSPAssembler::new(0);
    let mut a4 = RSPAssembler::new(0);
    a3.write_mtc0(rsp_assembler::CP0Register::SPStatus, GPR::T0);
    a4.write_mtc0(rsp_assembler::CP0Register::DPStatus, GPR::T0);
    // Only the control-register field, bits 11..=15, differs.
    assert_eq!(a3.words()[0] ^ a4.words()[0], (4 ^ 11) << 11);
}

#[test]
fn the_stream_grows_by_one_word_per_instruction() {
    let mut a = RSPAssembler::new(0x40);
    assert!(a.words().is_empty());
    a.write_nop();
    assert_eq!(a.words().len(), 1);
    a.write_or(GPR::T2, GPR::T0, GPR::T1);
    assert_eq!(a.words().len(), 2);
    a.write_lui(GPR::T0, 1);
    assert_eq!(a.words().len(), 3);
}
