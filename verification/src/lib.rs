//! An instruction-level Intel 8080 emulator.
//!
//! The crate models the processor state (registers, flags, memory, stack
//! pointer, program counter) and executes one instruction at a time until the
//! machine halts or faults.  Every state transition is specified against a
//! mathematical model of the machine and proved correct.

pub mod flags;
pub mod isa;
pub mod machine;
pub mod memory;
pub mod sem;

pub use flags::ConditionCodes;
pub use flags::parity;
pub use machine::Emulator;
pub use memory::LoadError;
pub use memory::Memory;
pub use sem::Status;
