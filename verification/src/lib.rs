//! An assembler for a MIPS-family scalar unit with a SIMD vector coprocessor.
//!
//! The assembler encodes symbolic instructions into the exact 32-bit machine
//! words the hardware consumes and appends them to an internal instruction
//! stream. Every encoder carries a contract pinning down the emitted word,
//! and the bit layout of each instruction format is stated once as a spec
//! function and proved to place every operand field at its documented span.

pub mod assembler;
pub mod fields;
pub mod opcode;
pub mod operand;
pub mod word;

pub use assembler::AssembleError;
pub use assembler::RSMAssemblerJumpTarget;
pub use assembler::RSPAssembler;
pub use operand::CP0Register;
pub use operand::Element;
pub use operand::E;
pub use operand::GPR;
pub use operand::VR;
