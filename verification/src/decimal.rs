//! Fixed-point decimal numbers with three fractional digits.

use vstd::prelude::*;

verus! {

/// The integer nearest to `n` that an `i64` can hold.
pub open spec fn saturate(n: int) -> int {
    if n > i64::MAX {
        i64::MAX as int
    } else if n < i64::MIN {
        i64::MIN as int
    } else {
        n
    }
}

/// `n` moved to the nearer end of `lo ..= hi` when it lies outside.
///
/// For `lo > hi` the lower end wins for small `n` and the upper end for
/// large `n`, so the function is total.
pub open spec fn clamp(n: int, lo: int, hi: int) -> int {
    if n < lo {
        lo
    } else if n > hi {
        hi
    } else {
        n
    }
}

/// A decimal number held exactly as a count of thousandths.
///
/// `Decimal::from_thousandths(2700)` is the number 2.7. The view of a
/// `Decimal` is that count, as a mathematical integer.
#[derive(Clone, Copy, Debug, PartialEq, Eq, Structural, PartialOrd, Ord)]
pub struct Decimal {
    thousandths: i64,
}

impl View for Decimal {
    type V = int;

    closed spec fn view(&self) -> int {
        self.thousandths as int
    }
}

impl Decimal {
    /// The number `count / 1000`.
    pub fn from_thousandths(count: i64) -> (r: Decimal)
        ensures
            r@ == count,
    {
        Decimal { thousandths: count }
    }

    /// The count of thousandths that this number stands for.
    pub fn thousandths(&self) -> (count: i64)
        ensures
            count == self@,
    {
        self.thousandths
    }

    /// Every `Decimal` fits the machine word that holds it.
    pub proof fn lemma_view_in_range(self)
        ensures
            i64::MIN <= self@ <= i64::MAX,
    {
    }

    /// The sum of the two numbers, or the nearest representable number
    /// where the sum does not fit.
    pub fn saturating_add(self, other: Decimal) -> (r: Decimal)
        ensures
            r@ == saturate(self@ + other@),
    {
        let a: i64 = self.thousandths;
        let b: i64 = other.thousandths;
        if b > 0 && a > i64::MAX - b {
            Decimal { thousandths: i64::MAX }
        } else if b < 0 && a < i64::MIN - b {
            Decimal { thousandths: i64::MIN }
        } else {
            Decimal { thousandths: a + b }
        }
    }

    /// This number, moved to the nearer of `lo` and `hi` when it lies
    /// outside `lo ..= hi`.
    pub fn clamped(self, lo: Decimal, hi: Decimal) -> (r: Decimal)
        ensures
            r@ == clamp(self@, lo@, hi@),
    {
        if self.thousandths < lo.thousandths {
            lo
        } else if self.thousandths > hi.thousandths {
            hi
        } else {
            self
        }
    }
}

} // verus!
