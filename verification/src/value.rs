//! The wrapper type that the `ranged` attribute generates, as a runtime
//! model: a value confined to a closed interval, with the interval carried
//! alongside the value rather than fixed per generated type.

use vstd::prelude::*;

verus! {

/// Does `v` lie within the closed interval? Each end is optional: an absent
/// end constrains nothing.
pub open spec fn in_bounds(v: i128, lo: Option<i128>, hi: Option<i128>) -> bool {
    &&& (lo matches Some(l) ==> l <= v)
    &&& (hi matches Some(h) ==> v <= h)
}

/// A value held inside its closed interval. No value of this type ever sits
/// outside its declared bounds: that is the guarantee the generated wrapper
/// gets from its checked constructor and its layout attributes.
pub struct Ranged {
    value: i128,
    lo: Option<i128>,
    hi: Option<i128>,
}

impl Ranged {
    /// The wrapped value.
    pub closed spec fn spec_value(self) -> i128 {
        self.value
    }

    /// The inclusive lower bound, if one was declared.
    pub closed spec fn spec_lo(self) -> Option<i128> {
        self.lo
    }

    /// The inclusive upper bound, if one was declared.
    pub closed spec fn spec_hi(self) -> Option<i128> {
        self.hi
    }

    /// The wrapped value lies within the declared bounds.
    #[verifier::type_invariant]
    pub closed spec fn wf(self) -> bool {
        in_bounds(self.value, self.lo, self.hi)
    }

    /// The checked constructor: each bound that was declared is tested, and
    /// a value outside the interval is refused. It returns a wrapper exactly
    /// on the values the interval admits.
    pub fn new(v: i128, lo: Option<i128>, hi: Option<i128>) -> (r: Option<Ranged>)
        ensures
            r is Some <==> in_bounds(v, lo, hi),
            r matches Some(x) ==> x.spec_value() == v && x.spec_lo() == lo && x.spec_hi() == hi,
    {
        if let Some(l) = lo {
            if v < l {
                return None;
            }
        }
        if let Some(h) = hi {
            if v > h {
                return None;
            }
        }
        Some(Ranged { value: v, lo, hi })
    }

    /// The unchecked constructor: it tests nothing and wraps the value as it
    /// came. The bounds are owed by the caller, as the `unsafe` contract of
    /// the generated constructor demands.
    pub fn new_unchecked(v: i128, lo: Option<i128>, hi: Option<i128>) -> (r: Ranged)
        requires
            in_bounds(v, lo, hi),
        ensures
            r.spec_value() == v && r.spec_lo() == lo && r.spec_hi() == hi,
    {
        Ranged { value: v, lo, hi }
    }

    /// The accessor: it returns the wrapped value, which is always within
    /// the declared bounds — the fact the generated accessor hands the
    /// compiler as an assumption.
    pub fn get(self) -> (r: i128)
        ensures
            r == self.spec_value(),
            in_bounds(r, self.spec_lo(), self.spec_hi()),
    {
        proof {
            use_type_invariant(&self);
        }
        self.value
    }
}

} // verus!
