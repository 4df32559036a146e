//! Opcode tables: the fixed numeric field values behind each mnemonic.
//!
//! Every constant here is part of the hardware's binary contract; none
//! changes at runtime. Grouped by the instruction-layout family whose field
//! it fills: primary operation codes, SPECIAL-format function codes,
//! coprocessor-0 sub-ops, vector load/store sub-ops, coprocessor-2 sub-ops,
//! and vector-unit operation codes.

use vstd::prelude::*;

verus! {

// Primary operation codes (the top 6 bits of every word).
pub const OP_SPECIAL: u32 = 0;
pub const OP_REGIMM: u32 = 1;
pub const OP_J: u32 = 2;
pub const OP_JAL: u32 = 3;
pub const OP_BEQ: u32 = 4;
pub const OP_BNE: u32 = 5;
pub const OP_BLEZ: u32 = 6;
pub const OP_BGTZ: u32 = 7;
pub const OP_ADDI: u32 = 8;
pub const OP_ADDIU: u32 = 9;
pub const OP_SLTI: u32 = 10;
pub const OP_SLTIU: u32 = 11;
pub const OP_ANDI: u32 = 12;
pub const OP_ORI: u32 = 13;
pub const OP_XORI: u32 = 14;
pub const OP_LUI: u32 = 15;
pub const OP_COP0: u32 = 16;
pub const OP_COP2: u32 = 18;
pub const OP_LB: u32 = 32;
pub const OP_LH: u32 = 33;
pub const OP_LW: u32 = 35;
pub const OP_LBU: u32 = 36;
pub const OP_LHU: u32 = 37;
pub const OP_LWU: u32 = 39;
pub const OP_SB: u32 = 40;
pub const OP_SH: u32 = 41;
pub const OP_SW: u32 = 43;
pub const OP_LWC2: u32 = 50;
pub const OP_SWC2: u32 = 58;

// SPECIAL-format function codes (the low 6 bits under `OP_SPECIAL`).
pub const FN_SLL: u32 = 0;
pub const FN_SRL: u32 = 2;
pub const FN_SRA: u32 = 3;
pub const FN_SLLV: u32 = 4;
pub const FN_SRLV: u32 = 6;
pub const FN_SRAV: u32 = 7;
pub const FN_JR: u32 = 8;
pub const FN_JALR: u32 = 9;
pub const FN_BREAK: u32 = 13;
pub const FN_ADD: u32 = 32;
pub const FN_ADDU: u32 = 33;
pub const FN_SUB: u32 = 34;
pub const FN_SUBU: u32 = 35;
pub const FN_AND: u32 = 36;
pub const FN_OR: u32 = 37;
pub const FN_XOR: u32 = 38;
pub const FN_NOR: u32 = 39;
pub const FN_SLT: u32 = 42;
pub const FN_SLTU: u32 = 43;

// Coprocessor-0 sub-operation codes (bits 21..=25 under `OP_COP0`).
pub const CP0_MFC0: u32 = 0;
pub const CP0_MTC0: u32 = 4;

// Vector load/store sub-operation codes (bits 11..=15 under `OP_LWC2` and
// `OP_SWC2`).
pub const WC2_BV: u32 = 0;
pub const WC2_SV: u32 = 1;
pub const WC2_LV: u32 = 2;
pub const WC2_DV: u32 = 3;
pub const WC2_QV: u32 = 4;
pub const WC2_RV: u32 = 5;
pub const WC2_PV: u32 = 6;
pub const WC2_UV: u32 = 7;
pub const WC2_HV: u32 = 8;
pub const WC2_FV: u32 = 9;
pub const WC2_WV: u32 = 10;
pub const WC2_TV: u32 = 11;

// Coprocessor-2 sub-operation codes (bits 21..=25 under `OP_COP2`).
// `CP2_VECTOR` has zero bits exactly where the element selector sits, so
// the vector arithmetic format merges the two with a bitwise OR.
pub const CP2_MFC2: u32 = 0;
pub const CP2_CFC2: u32 = 2;
pub const CP2_MTC2: u32 = 4;
pub const CP2_CTC2: u32 = 6;
pub const CP2_VECTOR: u32 = 16;

// Vector-unit operation codes (the low 6 bits of the vector arithmetic
// format).
pub const VOP_VMULF: u32 = 0;
pub const VOP_VMULU: u32 = 1;
pub const VOP_VRNDP: u32 = 2;
pub const VOP_VMULQ: u32 = 3;
pub const VOP_VMUDL: u32 = 4;
pub const VOP_VMUDM: u32 = 5;
pub const VOP_VMUDN: u32 = 6;
pub const VOP_VMUDH: u32 = 7;
pub const VOP_VMACF: u32 = 8;
pub const VOP_VMACU: u32 = 9;
pub const VOP_VRNDN: u32 = 10;
pub const VOP_VMACQ: u32 = 11;
pub const VOP_VMADL: u32 = 12;
pub const VOP_VMADM: u32 = 13;
pub const VOP_VMADN: u32 = 14;
pub const VOP_VMADH: u32 = 15;
pub const VOP_VADD: u32 = 16;
pub const VOP_VSUB: u32 = 17;
pub const VOP_VSUT: u32 = 18;
pub const VOP_VABS: u32 = 19;
pub const VOP_VADDC: u32 = 20;
pub const VOP_VSUBC: u32 = 21;
pub const VOP_VADDB: u32 = 22;
pub const VOP_VSUBB: u32 = 23;
pub const VOP_VACCB: u32 = 24;
pub const VOP_VSUCB: u32 = 25;
pub const VOP_VSAD: u32 = 26;
pub const VOP_VSAC: u32 = 27;
pub const VOP_VSUM: u32 = 28;
pub const VOP_VSAR: u32 = 29;
pub const VOP_VLT: u32 = 32;
pub const VOP_VEQ: u32 = 33;
pub const VOP_VNE: u32 = 34;
pub const VOP_VGE: u32 = 35;
pub const VOP_VCL: u32 = 36;
pub const VOP_VCH: u32 = 37;
pub const VOP_VCR: u32 = 38;
pub const VOP_VMRG: u32 = 39;
pub const VOP_VAND: u32 = 40;
pub const VOP_VNAND: u32 = 41;
pub const VOP_VOR: u32 = 42;
pub const VOP_VNOR: u32 = 43;
pub const VOP_VXOR: u32 = 44;
pub const VOP_VNXOR: u32 = 45;
pub const VOP_VRCP: u32 = 48;
pub const VOP_VRCPL: u32 = 49;
pub const VOP_VRCPH: u32 = 50;
pub const VOP_VMOV: u32 = 51;
pub const VOP_VRSQ: u32 = 52;
pub const VOP_VRSQL: u32 = 53;
pub const VOP_VRSQH: u32 = 54;
pub const VOP_VNOOP: u32 = 55;
pub const VOP_VEXTT: u32 = 56;
pub const VOP_VEXTQ: u32 = 57;
pub const VOP_VEXTN: u32 = 58;
pub const VOP_VINST: u32 = 60;
pub const VOP_VINSQ: u32 = 61;
pub const VOP_VINSN: u32 = 62;

} // verus!
