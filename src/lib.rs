//! A module that exports an increment to its host, and a wrapping sum.
//!
//! The exported increment calls the function that the host supplies once,
//! with twice its argument, and returns its argument plus one. Integer
//! overflow wraps around in two's complement: every exported function is
//! total over `isize`.
use vstd::prelude::*;

pub mod arith;
pub mod host;

pub use arith::sum;
pub use host::{Host, Instance};

verus! {

use crate::arith::{double, increment, wrap};

/// Calls the host's import once with `2 * i` (its answer is ignored) and
/// returns `i + 1`, both wrapping around on overflow.
pub fn export_function<H: Host>(module: &mut Instance<H>, i: isize) -> (r: isize)
    ensures
        final(module).imports() == old(module).imports().push(wrap(2 * i) as isize),
        isize::MIN <= 2 * i <= isize::MAX ==> final(module).imports().last() == 2 * i,
        r == wrap(i + 1),
        i < isize::MAX ==> r == i + 1,
        i == isize::MAX ==> r == isize::MIN,
{
    let _ = module.call_import(double(i));
    increment(i)
}

} // verus!
