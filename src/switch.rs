use crate::addr::virt_addr_value;
use crate::context::TaskContext;
use memory_addr::VirtAddr;
use vstd::prelude::*;

verus! {

/// The live register state of one hardware thread, as far as a context switch
/// reads or writes it.
///
/// `regs` holds the registers `ra`, `sp`, `s0`..`s11` and `tp` in the shape of
/// a saved record. Caller-saved registers are not modelled: a switch makes no
/// promise about them.
#[derive(Debug)]
pub struct HartState {
    /// Address of the next instruction to execute.
    pub pc: usize,
    /// The registers that a switch saves and restores.
    pub regs: TaskContext,
}

/// Whether `x` and `y` agree on the stack pointer and on every callee-saved
/// register `s0`..`s11`.
pub open spec fn same_callee_saved(x: TaskContext, y: TaskContext) -> bool {
    &&& x.sp == y.sp
    &&& x.s0 == y.s0
    &&& x.s1 == y.s1
    &&& x.s2 == y.s2
    &&& x.s3 == y.s3
    &&& x.s4 == y.s4
    &&& x.s5 == y.s5
    &&& x.s6 == y.s6
    &&& x.s7 == y.s7
    &&& x.s8 == y.s8
    &&& x.s9 == y.s9
    &&& x.s10 == y.s10
    &&& x.s11 == y.s11
}

impl HartState {
    /// The hart once a switch has loaded `next` and returned through `ra`:
    /// execution continues at the saved return address.
    pub open spec fn resumed_from(next: TaskContext) -> HartState {
        HartState { pc: next.ra, regs: next }
    }

    /// The record that a switch called from a site whose next instruction is
    /// at `return_addr` writes for the task that leaves: the call has put
    /// `return_addr` into `ra`, the other registers are as they were.
    pub open spec fn saved_at_call(self, return_addr: usize) -> TaskContext {
        TaskContext { ra: return_addr, ..self.regs }
    }

    /// The switch routine, entered with `ra` already set by the call: stores
    /// `ra`, `sp`, `s0`..`s11` and `tp` into `current`, loads the same
    /// registers from `next`, and returns through the loaded `ra`.
    ///
    /// It touches nothing but the two records and the registers, and cannot
    /// fail. Switching into a record that was never initialized jumps to
    /// address zero: avoiding that is the caller's duty. `current` and `next`
    /// are distinct records by their types.
    pub fn context_switch(&mut self, current: &mut TaskContext, next: &TaskContext)
        ensures
            *final(current) == old(self).regs,
            *final(self) == HartState::resumed_from(*next),
    {
        current.ra = self.regs.ra;
        current.sp = self.regs.sp;
        current.s0 = self.regs.s0;
        current.s1 = self.regs.s1;
        current.s2 = self.regs.s2;
        current.s3 = self.regs.s3;
        current.s4 = self.regs.s4;
        current.s5 = self.regs.s5;
        current.s6 = self.regs.s6;
        current.s7 = self.regs.s7;
        current.s8 = self.regs.s8;
        current.s9 = self.regs.s9;
        current.s10 = self.regs.s10;
        current.s11 = self.regs.s11;
        current.tp = self.regs.tp;

        self.regs.tp = next.tp;
        self.regs.s11 = next.s11;
        self.regs.s10 = next.s10;
        self.regs.s9 = next.s9;
        self.regs.s8 = next.s8;
        self.regs.s7 = next.s7;
        self.regs.s6 = next.s6;
        self.regs.s5 = next.s5;
        self.regs.s4 = next.s4;
        self.regs.s3 = next.s3;
        self.regs.s2 = next.s2;
        self.regs.s1 = next.s1;
        self.regs.s0 = next.s0;
        self.regs.sp = next.sp;
        self.regs.ra = next.ra;

        self.pc = self.regs.ra;
    }

    /// A call of the switch routine from a site whose next instruction is at
    /// `return_addr`: the call puts `return_addr` into `ra`, then the routine
    /// runs. The task that leaves will continue right after the call site.
    pub fn call_context_switch(&mut self, return_addr: usize, current: &mut TaskContext, next: &TaskContext)
        ensures
            *final(current) == old(self).saved_at_call(return_addr),
            final(current).ra == return_addr,
            *final(self) == HartState::resumed_from(*next),
    {
        self.regs.ra = return_addr;
        self.context_switch(current, next);
    }
}

/// Round trip. Task A, with the hart in state `before`, switches to task B
/// from a call site that returns to `ret_a`. B runs, leaving the hart in any
/// state `running_b`, and switches back to A from a call site that returns to
/// `ret_b`; nothing else writes A's record or B's record in between. Then A
/// continues at `ret_a` with its stack pointer, every callee-saved register and
/// its thread pointer exactly as before its switch, and B's record holds B's
/// registers with `ret_b` as its return address.
pub proof fn lemma_round_trip(
    before: HartState,
    ret_a: usize,
    running_b: HartState,
    ret_b: usize,
)
    ensures
        ({
            let a_saved = before.saved_at_call(ret_a);
            let b_saved = running_b.saved_at_call(ret_b);
            let back = HartState::resumed_from(a_saved);
            &&& back.pc == ret_a
            &&& same_callee_saved(back.regs, before.regs)
            &&& back.regs.tp == before.regs.tp
            &&& same_callee_saved(b_saved, running_b.regs)
            &&& b_saved.ra == ret_b
        }),
{
}

/// Entry. A record initialized with entry point `entry`, stack top
/// `stack_top` and thread-local area `tls_area`, when first resumed, starts
/// executing at `entry` with the stack pointer at `stack_top` and the thread
/// pointer at `tls_area`. If the record was fresh (all zero), every
/// callee-saved register is zero on entry.
pub proof fn lemma_entry(record: TaskContext, entry: usize, stack_top: VirtAddr, tls_area: VirtAddr)
    ensures
        ({
            let started = HartState::resumed_from(
                record.with_entry(entry, virt_addr_value(stack_top), virt_addr_value(tls_area)),
            );
            &&& started.pc == entry
            &&& started.regs.sp == virt_addr_value(stack_top)
            &&& started.regs.tp == virt_addr_value(tls_area)
            &&& record.is_zero() ==> started.regs.callee_saved_zero()
        }),
{
}

/// Saved return address. Whatever the hart's state `running`, a switch called
/// from a site whose next instruction is at `return_addr` leaves
/// `return_addr` as the saved return address of the task that leaves, so
/// that resuming it continues right after the call site.
pub proof fn lemma_saved_pc(running: HartState, return_addr: usize)
    ensures
        running.saved_at_call(return_addr).ra == return_addr,
        HartState::resumed_from(running.saved_at_call(return_addr)).pc == return_addr,
{
}

} // verus!
