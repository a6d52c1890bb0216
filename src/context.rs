use crate::addr::virt_addr_value;
use memory_addr::VirtAddr;
use vstd::prelude::*;

verus! {

/// Saved hardware state of a task.
///
/// It holds the return address, the stack pointer, the callee-saved
/// registers `s0`..`s11` and the thread pointer `tp` (the base of the task's
/// thread-local storage). Floating-point and vector registers are not part of
/// it: they are neither saved nor restored on a switch.
///
/// All-zero is a valid value of every field: it is the state of a record that
/// was allocated and not initialized yet. Such a record must never be resumed
/// (it would jump to address zero).
#[derive(Debug)]
pub struct TaskContext {
    /// Return address (`x1`).
    pub ra: usize,
    /// Stack pointer (`x2`).
    pub sp: usize,
    /// Callee-saved `s0` (`x8`), also the frame pointer.
    pub s0: usize,
    /// Callee-saved `s1` (`x9`).
    pub s1: usize,
    /// Callee-saved `s2` (`x18`).
    pub s2: usize,
    /// Callee-saved `s3` (`x19`).
    pub s3: usize,
    /// Callee-saved `s4` (`x20`).
    pub s4: usize,
    /// Callee-saved `s5` (`x21`).
    pub s5: usize,
    /// Callee-saved `s6` (`x22`).
    pub s6: usize,
    /// Callee-saved `s7` (`x23`).
    pub s7: usize,
    /// Callee-saved `s8` (`x24`).
    pub s8: usize,
    /// Callee-saved `s9` (`x25`).
    pub s9: usize,
    /// Callee-saved `s10` (`x26`).
    pub s10: usize,
    /// Callee-saved `s11` (`x27`).
    pub s11: usize,
    /// Thread pointer (`x4`), the base of thread-local storage.
    pub tp: usize,
}

impl TaskContext {
    /// Whether every callee-saved general-purpose register `s0`..`s11` is zero.
    pub open spec fn callee_saved_zero(self) -> bool {
        &&& self.s0 == 0
        &&& self.s1 == 0
        &&& self.s2 == 0
        &&& self.s3 == 0
        &&& self.s4 == 0
        &&& self.s5 == 0
        &&& self.s6 == 0
        &&& self.s7 == 0
        &&& self.s8 == 0
        &&& self.s9 == 0
        &&& self.s10 == 0
        &&& self.s11 == 0
    }

    /// Whether every field is zero: the state of a fresh record.
    pub open spec fn is_zero(self) -> bool {
        &&& self.ra == 0
        &&& self.sp == 0
        &&& self.tp == 0
        &&& self.callee_saved_zero()
    }

    /// This record made ready to start a task at `entry`, with stack pointer
    /// `stack_top` and thread pointer `tls_base`; the callee-saved registers
    /// keep their values.
    pub open spec fn with_entry(self, entry: usize, stack_top: usize, tls_base: usize) -> TaskContext {
        TaskContext { ra: entry, sp: stack_top, tp: tls_base, ..self }
    }

    /// Creates a zeroed context for a new task.
    pub fn new() -> (r: Self)
        ensures
            r.is_zero(),
    {
        TaskContext {
            ra: 0,
            sp: 0,
            s0: 0,
            s1: 0,
            s2: 0,
            s3: 0,
            s4: 0,
            s5: 0,
            s6: 0,
            s7: 0,
            s8: 0,
            s9: 0,
            s10: 0,
            s11: 0,
            tp: 0,
        }
    }

    /// Initializes the context for a new task: the first switch into it starts
    /// executing at `entry`, on the stack whose top is `kstack_top`, with the
    /// thread pointer at `tls_area`.
    ///
    /// The callee-saved registers keep their value, zero on a fresh record: a
    /// new task must not expect any of them to carry state.
    pub fn init(&mut self, entry: usize, kstack_top: VirtAddr, tls_area: VirtAddr)
        ensures
            *final(self) == old(self).with_entry(
                entry,
                virt_addr_value(kstack_top),
                virt_addr_value(tls_area),
            ),
    {
        self.sp = kstack_top.as_usize();
        self.ra = entry;
        self.tp = tls_area.as_usize();
    }

    /// The saved frame pointer (`s0`), for backtraces.
    pub fn thread_saved_fp(&self) -> (r: usize)
        ensures
            r == self.s0,
    {
        self.s0
    }

    /// The saved return address: where the task continues when resumed.
    pub fn thread_saved_pc(&self) -> (r: usize)
        ensures
            r == self.ra,
    {
        self.ra
    }
}

impl Default for TaskContext {
    /// A zeroed context, as [`TaskContext::new`] gives.
    fn default() -> (r: Self)
        ensures
            r.is_zero(),
    {
        TaskContext::new()
    }
}

} // verus!
