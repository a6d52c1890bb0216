//! Saved register state of a task on RISC-V, and a verified model of the
//! register transfer that switches from one task to another.
//!
//! A [`TaskContext`] is the record a suspended task leaves behind. The
//! [`HartState`] model stands for the live register file of one hardware
//! thread; its `context_switch` states exactly which values move between the
//! register file and the two records.
mod addr;
mod context;
mod switch;

pub use addr::virt_addr_value;
pub use context::TaskContext;
pub use switch::{lemma_entry, lemma_round_trip, lemma_saved_pc, same_callee_saved, HartState};
