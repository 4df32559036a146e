use rsp_assembler::CP0Register;
use rsp_assembler::Element;
use rsp_assembler::E;
use rsp_assembler::GPR;
use rsp_assembler::VR;

#[test]
fn gpr_from_index_round_trips_every_valid_index() {
    for i in 0..32usize {
        let g = GPR::from_index(i).expect("index in range");
        assert_eq!(g.index() as usize, i);
    }
}

#[test]
fn gpr_from_index_rejects_out_of_range() {
    assert_eq!(GPR::from_index(32), None);
    assert_eq!(GPR::from_index(100), None);
    assert_eq!(GPR::from_index(usize::MAX), None);
}

#[test]
fn gpr_named_registers_have_documented_numbers() {
    assert_eq!(GPR::R0.index(), 0);
    assert_eq!(GPR::AT.index(), 1);
    assert_eq!(GPR::A0.index(), 4);
    assert_eq!(GPR::T0.index(), 8);
    assert_eq!(GPR::S0.index(), 16);
    assert_eq!(GPR::GP.index(), 28);
    assert_eq!(GPR::SP.index(), 29);
    assert_eq!(GPR::RA.index(), 31);
}

#[test]
fn vr_from_index_round_trips_every_valid_index() {
    for i in 0..32u32 {
        let v = VR::from_index(i).expect("index in range");
        assert_eq!(v.index(), i);
    }
}

#[test]
fn vr_from_index_rejects_out_of_range() {
    assert_eq!(VR::from_index(32), None);
    assert_eq!(VR::from_index(u32::MAX), None);
}

#[test]
fn e_from_index_round_trips_every_valid_lane() {
    for i in 0..16u32 {
        let e = E::from_index(i).expect("lane in range");
        assert_eq!(e.index(), i);
    }
}

#[test]
fn e_from_index_rejects_out_of_range() {
    assert_eq!(E::from_index(16), None);
    assert_eq!(E::from_index(31), None);
    assert_eq!(E::from_index(u32::MAX), None);
}

#[test]
fn element_selectors_have_documented_field_values() {
    assert_eq!(Element::All.index(), 0);
    assert_eq!(Element::All1.index(), 1);
    assert_eq!(Element::Q0.index(), 2);
    assert_eq!(Element::Q1.index(), 3);
    assert_eq!(Element::H0.index(), 4);
    assert_eq!(Element::H3.index(), 7);
    assert_eq!(Element::_0.index(), 8);
    assert_eq!(Element::_7.index(), 15);
}

#[test]
fn cp0_registers_have_documented_numbers() {
    assert_eq!(CP0Register::SPAddress.index(), 0);
    assert_eq!(CP0Register::DRAMAddress.index(), 1);
    assert_eq!(CP0Register::ReadLength.index(), 2);
    assert_eq!(CP0Register::WriteLength.index(), 3);
    assert_eq!(CP0Register::SPStatus.index(), 4);
    assert_eq!(CP0Register::Semaphore.index(), 7);
    assert_eq!(CP0Register::DPStart.index(), 8);
    assert_eq!(CP0Register::DPEnd.index(), 9);
    assert_eq!(CP0Register::DPStatus.index(), 11);
    assert_eq!(CP0Register::DPClock.index(), 12);
}

#[test]
fn gpr_steps_between_counts_upward_distances() {
    assert_eq!(GPR::steps_between(&GPR::S0, &GPR::S7), Some(7));
    assert_eq!(GPR::steps_between(&GPR::R0, &GPR::RA), Some(31));
    assert_eq!(GPR::steps_between(&GPR::S7, &GPR::S0), None);
    assert_eq!(GPR::steps_between(&GPR::T0, &GPR::T0), None);
}

#[test]
fn gpr_forward_checked_walks_the_register_file() {
    assert_eq!(GPR::forward_checked(GPR::S0, 3), Some(GPR::S3));
    assert_eq!(GPR::forward_checked(GPR::R0, 31), Some(GPR::RA));
    assert_eq!(GPR::forward_checked(GPR::RA, 1), None);
    assert_eq!(GPR::forward_checked(GPR::T0, usize::MAX), None);
}

#[test]
fn gpr_backward_checked_walks_the_register_file() {
    assert_eq!(GPR::backward_checked(GPR::S3, 3), Some(GPR::S0));
    assert_eq!(GPR::backward_checked(GPR::RA, 31), Some(GPR::R0));
    assert_eq!(GPR::backward_checked(GPR::R0, 1), None);
    assert_eq!(GPR::backward_checked(GPR::T0, usize::MAX), None);
}
