use memory_addr::VirtAddr;
use vstd::prelude::*;

verus! {

/// `memory_addr::VirtAddr`, a virtual address that wraps a `usize`. Its field
/// is private, so Verus sees the value as opaque.
#[verifier::external_type_specification]
#[verifier::external_body]
pub struct ExVirtAddr(VirtAddr);

/// The address that a `VirtAddr` holds, as `VirtAddr::as_usize` returns it.
pub uninterp spec fn virt_addr_value(a: VirtAddr) -> usize;

/// Relies on `VirtAddr::as_usize`: it returns the `usize` the address holds,
/// and depends on nothing else.
pub assume_specification[ VirtAddr::as_usize ](a: VirtAddr) -> (r: usize)
    ensures
        r == virt_addr_value(a),
;

} // verus!
