//! Occupancy limits and admission errors for the multi-value caches.

use vstd::prelude::*;
use vstd::string::StringExecFns;
use vstd::std_specs::cmp::{PartialEqSpec, PartialOrdSpec};

verus! {

/// Tri-state capacity descriptor for a cache: either no bound at all
/// (`Unlimited`) or a fixed numeric bound (`Limited(n)`).
///
/// `Limited(0)` is a valid, meaningful state (capacity zero, so every
/// insertion is rejected) and is distinct from `Unlimited`.
///
/// For ordering purposes `Unlimited` is greater than every `Limited(n)`;
/// among `Limited` values the order is numeric.
#[derive(Clone, Copy, Debug, Hash, PartialEq, Eq, Structural, Ord)]
pub enum OccupancyLimit {
    Limited(usize),
    Unlimited,
}

impl PartialOrd for OccupancyLimit {
    /// `Unlimited` is greater than every `Limited(n)`; among `Limited`
    /// values the order is numeric. The order is total.
    fn partial_cmp(&self, other: &Self) -> (r: Option<core::cmp::Ordering>) {
        match (self, other) {
            (OccupancyLimit::Limited(l0), OccupancyLimit::Limited(r0)) => {
                if *l0 < *r0 {
                    Some(core::cmp::Ordering::Less)
                } else if *l0 == *r0 {
                    Some(core::cmp::Ordering::Equal)
                } else {
                    Some(core::cmp::Ordering::Greater)
                }
            },
            (OccupancyLimit::Unlimited, OccupancyLimit::Unlimited) => {
                Some(core::cmp::Ordering::Equal)
            },
            (OccupancyLimit::Limited(_), OccupancyLimit::Unlimited) => {
                Some(core::cmp::Ordering::Less)
            },
            (OccupancyLimit::Unlimited, OccupancyLimit::Limited(_)) => {
                Some(core::cmp::Ordering::Greater)
            },
        }
    }
}

impl vstd::std_specs::cmp::PartialOrdSpecImpl for OccupancyLimit {
    open spec fn obeys_partial_cmp_spec() -> bool {
        true
    }

    open spec fn partial_cmp_spec(&self, other: &Self) -> Option<core::cmp::Ordering> {
        match (*self, *other) {
            (OccupancyLimit::Limited(l0), OccupancyLimit::Limited(r0)) => {
                if l0 < r0 {
                    Some(core::cmp::Ordering::Less)
                } else if l0 == r0 {
                    Some(core::cmp::Ordering::Equal)
                } else {
                    Some(core::cmp::Ordering::Greater)
                }
            },
            (OccupancyLimit::Unlimited, OccupancyLimit::Unlimited) => {
                Some(core::cmp::Ordering::Equal)
            },
            (OccupancyLimit::Limited(_), OccupancyLimit::Unlimited) => {
                Some(core::cmp::Ordering::Less)
            },
            (OccupancyLimit::Unlimited, OccupancyLimit::Limited(_)) => {
                Some(core::cmp::Ordering::Greater)
            },
        }
    }
}

impl PartialEq<usize> for OccupancyLimit {
    /// A descriptor equals a raw count only when it is `Limited` at exactly
    /// that count; `Unlimited` is never equal to any raw count.
    fn eq(&self, other: &usize) -> (r: bool) {
        match self {
            OccupancyLimit::Limited(lim) => *lim == *other,
            OccupancyLimit::Unlimited => false,
        }
    }
}

impl vstd::std_specs::cmp::PartialEqSpecImpl<usize> for OccupancyLimit {
    open spec fn obeys_eq_spec() -> bool {
        true
    }

    open spec fn eq_spec(&self, other: &usize) -> bool {
        *self == OccupancyLimit::Limited(*other)
    }
}

impl PartialOrd<usize> for OccupancyLimit {
    /// Compared against a raw count, `Unlimited` is greater than everything;
    /// `Limited(n)` compares as `n` does.
    fn partial_cmp(&self, other: &usize) -> (r: Option<core::cmp::Ordering>) {
        match self {
            OccupancyLimit::Limited(l0) => {
                if *l0 < *other {
                    Some(core::cmp::Ordering::Less)
                } else if *l0 == *other {
                    Some(core::cmp::Ordering::Equal)
                } else {
                    Some(core::cmp::Ordering::Greater)
                }
            },
            OccupancyLimit::Unlimited => Some(core::cmp::Ordering::Greater),
        }
    }
}

impl vstd::std_specs::cmp::PartialOrdSpecImpl<usize> for OccupancyLimit {
    open spec fn obeys_partial_cmp_spec() -> bool {
        true
    }

    open spec fn partial_cmp_spec(&self, other: &usize) -> Option<core::cmp::Ordering> {
        match *self {
            OccupancyLimit::Limited(l0) => {
                if l0 < *other {
                    Some(core::cmp::Ordering::Less)
                } else if l0 == *other {
                    Some(core::cmp::Ordering::Equal)
                } else {
                    Some(core::cmp::Ordering::Greater)
                }
            },
            OccupancyLimit::Unlimited => Some(core::cmp::Ordering::Greater),
        }
    }
}

impl Default for OccupancyLimit {
    /// A fresh descriptor imposes no bound.
    fn default() -> (r: Self)
        ensures
            r == OccupancyLimit::Unlimited,
    {
        OccupancyLimit::Unlimited
    }
}

impl OccupancyLimit {
    /// The numeric bound, if one is set: `Limited(n)` maps to `Some(n)`,
    /// `Unlimited` to `None`.
    pub open spec fn spec_get(self) -> Option<usize> {
        match self {
            OccupancyLimit::Limited(n) => Some(n),
            OccupancyLimit::Unlimited => None,
        }
    }

    /// Sets a mutably borrowed [`OccupancyLimit`] to [`OccupancyLimit::Unlimited`],
    /// returning the numeric limit that was replaced, if there was one.
    pub fn unset_limit(&mut self) -> (r: Option<usize>)
        ensures
            *final(self) == OccupancyLimit::Unlimited,
            r == old(self).spec_get(),
    {
        match self {
            OccupancyLimit::Unlimited => None,
            OccupancyLimit::Limited(val) => {
                let v = *val;
                *self = OccupancyLimit::Unlimited;
                Some(v)
            },
        }
    }

    /// Returns `true` iff the [`OccupancyLimit`] is `Limited(0)`.
    pub fn is_zero(&self) -> (r: bool)
        ensures
            r == (*self == OccupancyLimit::Limited(0)),
    {
        matches!(self, OccupancyLimit::Limited(0))
    }

    /// Returns the numeric limit, or `None` if unlimited.
    pub fn get(&self) -> (r: Option<usize>)
        ensures
            r == self.spec_get(),
    {
        match self {
            OccupancyLimit::Unlimited => None,
            OccupancyLimit::Limited(val) => Some(*val),
        }
    }

    /// Returns the raw internal limit of this [`OccupancyLimit`].
    ///
    /// Callers must establish that the descriptor is `Limited` before calling;
    /// [`Self::get`] is the checked alternative.
    pub fn get_unchecked(&self) -> (r: usize)
        requires
            *self is Limited,
        ensures
            *self == OccupancyLimit::Limited(r),
    {
        match self {
            OccupancyLimit::Limited(value) => *value,
            OccupancyLimit::Unlimited => unreached(),
        }
    }

    /// Returns a mutable reference to the numeric limit, or `None` if
    /// unlimited. Writing through the reference changes the stored bound.
    pub fn get_mut(&mut self) -> (r: Option<&mut usize>)
        ensures
            match r {
                Option::None => {
                    &&& *old(self) is Unlimited
                    &&& *final(self) == *old(self)
                },
                Option::Some(m) => {
                    &&& *old(self) == OccupancyLimit::Limited(*m)
                    &&& *final(self) == OccupancyLimit::Limited(*final(m))
                },
            },
    {
        match self {
            OccupancyLimit::Unlimited => None,
            OccupancyLimit::Limited(value) => Some(value),
        }
    }

    /// Returns a mutable reference to the numeric limit without checking for
    /// `Unlimited`. Callers must establish that the descriptor is `Limited`;
    /// [`Self::get_mut`] and [`Self::get_mut_or`] are the checked alternatives.
    pub fn get_mut_unchecked(&mut self) -> (r: &mut usize)
        requires
            *old(self) is Limited,
        ensures
            *old(self) == OccupancyLimit::Limited(*r),
            *final(self) == OccupancyLimit::Limited(*final(r)),
    {
        match self {
            OccupancyLimit::Limited(value) => value,
            OccupancyLimit::Unlimited => unreached(),
        }
    }

    /// Returns a direct mutable reference to the numeric limit, initializing
    /// the descriptor to `Limited(init)` if it was `Unlimited` and otherwise
    /// leaving its value alone.
    ///
    /// Despite reading like an accessor, this mutates in place whenever the
    /// descriptor was `Unlimited`. To obtain an `Option`-wrapped reference
    /// without that side effect, use [`Self::get_mut`] instead.
    pub fn get_mut_or(&mut self, init: usize) -> (r: &mut usize)
        ensures
            *r == match *old(self) {
                OccupancyLimit::Unlimited => init,
                OccupancyLimit::Limited(v) => v,
            },
            *final(self) == OccupancyLimit::Limited(*final(r)),
    {
        match self {
            OccupancyLimit::Unlimited => {
                self.set_limit(init);
            },
            _ => (),
        }
        self.get_mut_unchecked()
    }

    /// Sets this descriptor to `Limited(limit)`, whatever it was before.
    pub fn set_limit(&mut self, limit: usize)
        ensures
            *final(self) == OccupancyLimit::Limited(limit),
    {
        *self = OccupancyLimit::Limited(limit);
    }

    /// Replaces the numeric limit with `limit`, returning the previous
    /// numeric value if one existed, else `None`.
    ///
    /// If the return value is not needed, [`Self::set_limit`] does the same job.
    pub fn replace_limit(&mut self, limit: usize) -> (r: Option<usize>)
        ensures
            *final(self) == OccupancyLimit::Limited(limit),
            r == old(self).spec_get(),
    {
        match self {
            OccupancyLimit::Unlimited => {
                *self = OccupancyLimit::Limited(limit);
                None
            },
            OccupancyLimit::Limited(old_value) => {
                let prev = *old_value;
                *self = OccupancyLimit::Limited(limit);
                Some(prev)
            },
        }
    }
}

/// Law: for every raw count `n`, `Unlimited` compares strictly greater than
/// `Limited(n)`; `Limited(n)` equals exactly the raw count `n`; and
/// `Unlimited` equals no raw count at all.
pub proof fn lemma_limit_ordering(n: usize)
    ensures
        OccupancyLimit::Unlimited.partial_cmp_spec(&OccupancyLimit::Limited(n)) == Some(
            core::cmp::Ordering::Greater,
        ),
        forall|m: usize|
            OccupancyLimit::Limited(n).eq_spec(&m) <==> m == n,
        forall|m: usize| !OccupancyLimit::Unlimited.eq_spec(&m),
{
}

/// The character standing for a single decimal digit.
pub open spec fn digit_char(d: nat) -> char {
    if d == 0 {
        '0'
    } else if d == 1 {
        '1'
    } else if d == 2 {
        '2'
    } else if d == 3 {
        '3'
    } else if d == 4 {
        '4'
    } else if d == 5 {
        '5'
    } else if d == 6 {
        '6'
    } else if d == 7 {
        '7'
    } else if d == 8 {
        '8'
    } else {
        '9'
    }
}

/// The decimal rendering of `n`, most significant digit first, with no
/// leading zeros (`0` itself renders as a single `'0'`).
pub open spec fn decimal_digits(n: nat) -> Seq<char>
    decreases n,
{
    if n < 10 {
        seq![digit_char(n)]
    } else {
        decimal_digits(n / 10).push(digit_char(n % 10))
    }
}

/// Appends the decimal rendering of `n` to `s`.
fn push_decimal(s: &mut String, n: usize)
    ensures
        final(s)@ == old(s)@ + decimal_digits(n as nat),
    decreases n,
{
    if n >= 10 {
        push_decimal(s, n / 10);
    }
    let d: usize = n % 10;
    let ds: &str = if d == 0 {
        "0"
    } else if d == 1 {
        "1"
    } else if d == 2 {
        "2"
    } else if d == 3 {
        "3"
    } else if d == 4 {
        "4"
    } else if d == 5 {
        "5"
    } else if d == 6 {
        "6"
    } else if d == 7 {
        "7"
    } else if d == 8 {
        "8"
    } else {
        "9"
    };
    proof {
        reveal_strlit("0");
        reveal_strlit("1");
        reveal_strlit("2");
        reveal_strlit("3");
        reveal_strlit("4");
        reveal_strlit("5");
        reveal_strlit("6");
        reveal_strlit("7");
        reveal_strlit("8");
        reveal_strlit("9");
        assert(ds@ =~= seq![digit_char(d as nat)]);
    }
    s.append(ds);
}

/// Why an insertion into a bounded cache was refused.
///
/// `ZeroMaxOccupancy` means no insertion is ever possible because the
/// capacity is fixed at zero; `ReachedMaxOccupancy(n)` means the insertion
/// would have pushed the occupancy past the current limit `n`.
#[derive(Debug, Clone, PartialEq, Eq, Structural)]
pub enum OccupancyError {
    ZeroMaxOccupancy,
    ReachedMaxOccupancy(usize),
}

impl OccupancyError {
    /// The characters of the human-readable description of this error.
    pub open spec fn message_spec(self) -> Seq<char> {
        match self {
            OccupancyError::ZeroMaxOccupancy => {
                "occupancy error: maximum occupancy is currently set to 0"@
            },
            OccupancyError::ReachedMaxOccupancy(max) => {
                "occupancy error: cache has reached its maximum occupancy of "@
                    + decimal_digits(max as nat)
            },
        }
    }

    /// Renders this error as a human-readable message for logging and
    /// diagnostics, including the numeric limit where one was hit.
    pub fn message(&self) -> (r: String)
        ensures
            r@ == self.message_spec(),
    {
        match self {
            OccupancyError::ZeroMaxOccupancy => {
                String::from_str("occupancy error: maximum occupancy is currently set to 0")
            },
            OccupancyError::ReachedMaxOccupancy(max) => {
                let mut s = String::from_str(
                    "occupancy error: cache has reached its maximum occupancy of ",
                );
                push_decimal(&mut s, *max);
                s
            },
        }
    }
}

} // verus!
