//! The public barrier operations.
//!
//! In the spirit of the Linux kernel's `OPTIMIZER_HIDE_VAR`: a value is
//! "hidden" from the optimizer, which must then assume it was read and
//! changed in unpredictable ways, while its contents stay exactly as they
//! were.
use vstd::prelude::*;

pub use crate::instruction::hide_mem_impl;

verus! {

/// The contents seen through `after` are those seen through `before`.
/// Comparing through references lets the statement cover types whose size
/// is only known at run time.
pub open spec fn keeps_contents<T: ?Sized>(before: &T, after: &T) -> bool {
    before == after
}

/// Make the optimizer believe that the memory behind `ptr` is read and
/// modified arbitrarily. The contents are left exactly as they were; the
/// type may be one whose size is only known at run time, such as a slice.
#[inline]
pub fn hide_mem<T: ?Sized>(ptr: &mut T)
    ensures
        keeps_contents(&*old(ptr), &*final(ptr)),
{
    hide_mem_impl(ptr);
}

/// Make the optimizer believe that the value returned may be unrelated to
/// `ptr`, apart from its lifetime. The barrier acts on the storage of the
/// pointer itself, not on what it points to, and the value returned is
/// `ptr`.
#[inline]
pub fn hide_ptr<P>(ptr: P) -> (r: P)
    ensures
        r == ptr,
{
    let mut held = ptr;
    hide_mem(&mut held);
    held
}

/// Applying the barrier twice in a row leaves memory as applying it once.
/// Each application keeps the contents it is given, so after the second the
/// region holds what it held after the first, which is what it held at the
/// start.
pub proof fn lemma_hide_mem_idempotent<T: ?Sized>(start: &T, once: &T, twice: &T)
    requires
        keeps_contents(start, once),
        keeps_contents(once, twice),
    ensures
        keeps_contents(twice, once),
        keeps_contents(start, twice),
{
}

} // verus!
