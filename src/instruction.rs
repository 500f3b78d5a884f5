//! The barrier made of an empty instruction sequence.
//!
//! `std::hint::black_box` is lowered by the compiler, where the target
//! allows it, to an empty assembly block that takes the address in a
//! register and declares that any memory may be read or written. The
//! optimizer must then keep every store to the region that precedes the
//! block, and reload after it whatever it reads from the region.
use vstd::prelude::*;

use crate::barrier::keeps_contents;

verus! {

/// Relies on `std::hint::black_box`: an identity function, so the value
/// behind the reference is handed back untouched, while the optimizer has
/// to assume the reference was used in any way that Rust allows.
#[verifier::external_body]
fn pass_to_black_box<T: ?Sized>(ptr: &mut T)
    ensures
        keeps_contents(&*old(ptr), &*final(ptr)),
{
    std::hint::black_box(ptr);
}

/// Apply the barrier to the memory behind `ptr`, whether its size is known
/// when compiling or only at run time. The contents are unchanged.
#[inline]
pub fn hide_mem_impl<T: ?Sized>(ptr: &mut T)
    ensures
        keeps_contents(&*old(ptr), &*final(ptr)),
{
    pass_to_black_box(ptr);
}

} // verus!
