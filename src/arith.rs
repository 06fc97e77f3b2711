//! Two's-complement arithmetic on `isize`, modelled over mathematical integers.
use vstd::arithmetic::div_mod::{
    lemma_add_mod_noop_right, lemma_mod_add_multiples_vanish, lemma_mod_sub_multiples_vanish,
    lemma_small_mod,
};
use vstd::prelude::*;

verus! {

/// The number of distinct `isize` values.
pub open spec fn isize_modulus() -> int {
    isize::MAX - isize::MIN + 1
}

/// `v` brought into the `isize` range modulo its width: the value that
/// two's-complement wraparound gives.
pub open spec fn wrap(v: int) -> int {
    isize::MIN + (v - isize::MIN) % isize_modulus()
}

/// Values in the `isize` range are their own wraparound.
pub proof fn lemma_wrap_in_range(v: int)
    requires
        isize::MIN <= v <= isize::MAX,
    ensures
        wrap(v) == v,
{
    lemma_small_mod((v - isize::MIN) as nat, isize_modulus() as nat);
}

/// Adding or taking away one modulus does not change the wraparound.
pub proof fn lemma_wrap_shift(v: int)
    ensures
        wrap(v + isize_modulus()) == wrap(v),
        wrap(v - isize_modulus()) == wrap(v),
{
    let m = isize_modulus();
    lemma_mod_add_multiples_vanish(v - isize::MIN, m);
    lemma_mod_sub_multiples_vanish(v - isize::MIN, m);
}

/// Wraparound of a value at most one modulus out of range.
pub proof fn lemma_wrap_once(v: int)
    requires
        isize::MIN - isize_modulus() <= v <= isize::MAX + isize_modulus(),
    ensures
        wrap(v) == if v > isize::MAX {
            v - isize_modulus()
        } else if v < isize::MIN {
            v + isize_modulus()
        } else {
            v
        },
{
    lemma_wrap_shift(v);
    lemma_wrap_shift(v - isize_modulus());
    lemma_wrap_shift(v + isize_modulus());
    if v > isize::MAX {
        lemma_wrap_in_range(v - isize_modulus());
    } else if v < isize::MIN {
        lemma_wrap_in_range(v + isize_modulus());
    } else {
        lemma_wrap_in_range(v);
    }
}

/// Wrapping one summand first does not change the wrapped sum.
pub proof fn lemma_wrap_absorbs(a: int, b: int)
    ensures
        wrap(a + wrap(b)) == wrap(a + b),
{
    lemma_add_mod_noop_right(a, b - isize::MIN, isize_modulus());
    assert(a + wrap(b) - isize::MIN == a + (b - isize::MIN) % isize_modulus());
    assert(a + b - isize::MIN == a + (b - isize::MIN));
}

/// `i + 1`, wrapping from `isize::MAX` to `isize::MIN`.
pub fn increment(i: isize) -> (r: isize)
    ensures
        r == wrap(i + 1),
        i < isize::MAX ==> r == i + 1,
        i == isize::MAX ==> r == isize::MIN,
{
    proof {
        lemma_wrap_once(i + 1);
    }
    i.wrapping_add(1)
}

/// `2 * i`, wrapping around on overflow.
pub fn double(i: isize) -> (r: isize)
    ensures
        r == wrap(2 * i),
        isize::MIN <= 2 * i <= isize::MAX ==> r == 2 * i,
{
    proof {
        lemma_wrap_once(2 * i);
    }
    i.wrapping_add(i)
}

/// `x + y`, wrapping around on overflow.
pub fn sum(x: isize, y: isize) -> (r: isize)
    ensures
        r == wrap(x + y),
        isize::MIN <= x + y <= isize::MAX ==> r == x + y,
{
    proof {
        lemma_wrap_once(x + y);
    }
    x.wrapping_add(y)
}

/// `sum` is commutative: `sum(x, y) == sum(y, x)`.
pub proof fn lemma_sum_commutative(x: isize, y: isize)
    ensures
        wrap(x + y) == wrap(y + x),
{
}

/// `sum` is associative: `sum(sum(x, y), z) == sum(x, sum(y, z))`, overflow
/// included.
pub proof fn lemma_sum_associative(x: isize, y: isize, z: isize)
    ensures
        wrap(wrap(x + y) + z) == wrap(x + wrap(y + z)),
{
    lemma_wrap_absorbs(z as int, x + y);
    lemma_wrap_absorbs(x as int, y + z);
    assert(z + (x + y) == x + (y + z));
}

} // verus!
