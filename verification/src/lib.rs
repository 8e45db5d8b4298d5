//! Trap dispatch for a 64-bit x86 machine: the layout of interrupt gate
//! descriptors, the 256-slot descriptor table, and the register image that
//! makes the table the processor's active one.
//!
//! Everything here is a pure function on plain values. The privileged
//! register load itself, and the entry points the processor jumps to, belong
//! to the program that links this library.

use vstd::prelude::*;

pub mod idt;
pub mod register;
pub mod trap;

pub use register::DescriptorTableRegister;

verus! {

/// Selector of the kernel code segment; every gate of this system targets it.
pub const KERNEL_CS: u16 = 0x08;

} // verus!
