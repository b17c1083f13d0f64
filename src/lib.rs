//! An interpreter for the FlewittPC, a small 8-bit microcomputer: a raw memory
//! image is decoded one instruction at a time and executed against a machine
//! state of two 8-bit registers, a 16-bit address register, a carry flag, a
//! program counter and a 2 KiB memory bank.
pub mod instruction;
pub mod machine;
pub mod laws;
