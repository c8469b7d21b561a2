//! The true entry routine, modelled as a transition on the core's visible
//! state.
//!
//! On real silicon this routine runs with no stack and no runtime: it
//! disables interrupts, writes a fixed pattern into the core's
//! memory-access-fault configuration register, points the stack pointer at
//! the top of the reserved stack region, places the boot header address in
//! the first argument register, and transfers control onward without
//! returning. The model states the machine state those steps leave behind.

use vstd::prelude::*;

verus! {

/// Bytes of stack reserved for the one core that runs this stage.
pub const PER_HART_STACK_SIZE: u64 = 4 * 4096;

/// Total size of the reserved stack region.
pub const SBI_STACK_SIZE: u64 = 1 * PER_HART_STACK_SIZE;

/// Bit pattern set in the core fault-configuration register to establish a
/// defined memory-access-fault behavior for the rest of this stage.
pub const MCOR_INIT_BITS: u64 = 0x30013;

/// The core state the entry routine touches: the interrupt-enable register,
/// the fault-configuration register, the stack pointer, and the first
/// runtime-argument register.
pub struct CpuState {
    pub mie: u64,
    pub mcor: u64,
    pub sp: u64,
    pub a0: u64,
}

/// The true entry point: every interrupt source is masked, the
/// fault-configuration bits are set on top of whatever the register held,
/// the stack pointer ends at the top of the stack region (the stack grows
/// downward from there), and the boot header address sits in the argument
/// register for the runtime initializer.
pub fn start(cpu: &mut CpuState, stack_base: u64, head_address: u64)
    requires
        stack_base + SBI_STACK_SIZE <= u64::MAX,
    ensures
        final(cpu).mie == 0,
        final(cpu).mcor == old(cpu).mcor | MCOR_INIT_BITS,
        final(cpu).sp == stack_base + SBI_STACK_SIZE,
        final(cpu).a0 == head_address,
{
    cpu.mie = 0;
    cpu.mcor = cpu.mcor | MCOR_INIT_BITS;
    cpu.sp = stack_base + SBI_STACK_SIZE;
    cpu.a0 = head_address;
}

} // verus!
