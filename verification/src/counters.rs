//! The safe/unsafe tally and the five-kind block built from it.

use vstd::prelude::*;

verus! {

/// A pair of tallies: how many safe and how many unsafe items were seen.
#[derive(Clone, Copy, Debug, PartialEq, Eq, Structural)]
pub struct Count {
    pub safe: u64,
    pub unsafe_: u64,
}

/// One tally per construct kind.
#[derive(Clone, Copy, Debug, PartialEq, Eq, Structural)]
pub struct CounterBlock {
    pub functions: Count,
    pub exprs: Count,
    pub item_impls: Count,
    pub item_traits: Count,
    pub methods: Count,
}

/// The mathematical value of a `Count`: two unbounded integers.
pub struct Pair {
    pub safe: int,
    pub unsafe_: int,
}

/// The mathematical value of a `CounterBlock`.
pub struct Tally {
    pub functions: Pair,
    pub exprs: Pair,
    pub item_impls: Pair,
    pub item_traits: Pair,
    pub methods: Pair,
}

impl Pair {
    pub open spec fn zero() -> Pair {
        Pair { safe: 0, unsafe_: 0 }
    }

    /// A single occurrence, safe or unsafe.
    pub open spec fn one(is_unsafe: bool) -> Pair {
        if is_unsafe {
            Pair { safe: 0, unsafe_: 1 }
        } else {
            Pair { safe: 1, unsafe_: 0 }
        }
    }

    pub open spec fn plus(self, other: Pair) -> Pair {
        Pair { safe: self.safe + other.safe, unsafe_: self.unsafe_ + other.unsafe_ }
    }

    pub open spec fn total(self) -> int {
        self.safe + self.unsafe_
    }

    pub open spec fn le(self, other: Pair) -> bool {
        self.safe <= other.safe && self.unsafe_ <= other.unsafe_
    }

    pub open spec fn non_negative(self) -> bool {
        0 <= self.safe && 0 <= self.unsafe_
    }

    /// Both tallies can be held in a `Count`.
    pub open spec fn fits(self) -> bool {
        0 <= self.safe <= u64::MAX && 0 <= self.unsafe_ <= u64::MAX
    }
}

impl Tally {
    pub open spec fn zero() -> Tally {
        Tally {
            functions: Pair::zero(),
            exprs: Pair::zero(),
            item_impls: Pair::zero(),
            item_traits: Pair::zero(),
            methods: Pair::zero(),
        }
    }

    pub open spec fn plus(self, other: Tally) -> Tally {
        Tally {
            functions: self.functions.plus(other.functions),
            exprs: self.exprs.plus(other.exprs),
            item_impls: self.item_impls.plus(other.item_impls),
            item_traits: self.item_traits.plus(other.item_traits),
            methods: self.methods.plus(other.methods),
        }
    }

    pub open spec fn le(self, other: Tally) -> bool {
        &&& self.functions.le(other.functions)
        &&& self.exprs.le(other.exprs)
        &&& self.item_impls.le(other.item_impls)
        &&& self.item_traits.le(other.item_traits)
        &&& self.methods.le(other.methods)
    }

    pub open spec fn non_negative(self) -> bool {
        &&& self.functions.non_negative()
        &&& self.exprs.non_negative()
        &&& self.item_impls.non_negative()
        &&& self.item_traits.non_negative()
        &&& self.methods.non_negative()
    }

    pub open spec fn fits(self) -> bool {
        &&& self.functions.fits()
        &&& self.exprs.fits()
        &&& self.item_impls.fits()
        &&& self.item_traits.fits()
        &&& self.methods.fits()
    }

    /// The number of unsafe occurrences over all five kinds.
    pub open spec fn unsafe_total(self) -> int {
        self.functions.unsafe_ + self.exprs.unsafe_ + self.item_impls.unsafe_
            + self.item_traits.unsafe_ + self.methods.unsafe_
    }
}

impl View for Count {
    type V = Pair;

    open spec fn view(&self) -> Pair {
        Pair { safe: self.safe as int, unsafe_: self.unsafe_ as int }
    }
}

impl View for CounterBlock {
    type V = Tally;

    open spec fn view(&self) -> Tally {
        Tally {
            functions: self.functions@,
            exprs: self.exprs@,
            item_impls: self.item_impls@,
            item_traits: self.item_traits@,
            methods: self.methods@,
        }
    }
}

/// Calls `cargo_geiger_serde::Count::count` on a copy of `c`: that method
/// adds one to `unsafe_` when `is_unsafe` holds and to `safe` otherwise, and
/// leaves the other field alone. Its addition is unchecked, so the
/// incremented field must be below `u64::MAX`.
#[verifier::external_body]
fn count_one(c: Count, is_unsafe: bool) -> (r: Count)
    requires
        c@.plus(Pair::one(is_unsafe)).fits(),
    ensures
        r@ == c@.plus(Pair::one(is_unsafe)),
{
    let mut outside = cargo_geiger_serde::Count { safe: c.safe, unsafe_: c.unsafe_ };
    outside.count(is_unsafe);
    Count { safe: outside.safe, unsafe_: outside.unsafe_ }
}

/// Calls the `Add` impl of `cargo_geiger_serde::Count` on copies of `a` and
/// `b`: it adds the two `safe` fields and the two `unsafe_` fields,
/// unchecked, so both sums must fit in a `u64`.
#[verifier::external_body]
fn count_sum(a: Count, b: Count) -> (r: Count)
    requires
        a@.plus(b@).fits(),
    ensures
        r@ == a@.plus(b@),
{
    let left = cargo_geiger_serde::Count { safe: a.safe, unsafe_: a.unsafe_ };
    let right = cargo_geiger_serde::Count { safe: b.safe, unsafe_: b.unsafe_ };
    let outside = left + right;
    Count { safe: outside.safe, unsafe_: outside.unsafe_ }
}

impl Count {
    pub fn new() -> (r: Count)
        ensures
            r@ == Pair::zero(),
    {
        Count { safe: 0, unsafe_: 0 }
    }

    /// Records one more occurrence, unsafe or safe.
    pub fn count(&mut self, is_unsafe: bool)
        requires
            old(self)@.plus(Pair::one(is_unsafe)).fits(),
        ensures
            final(self)@ == old(self)@.plus(Pair::one(is_unsafe)),
    {
        *self = count_one(*self, is_unsafe);
    }

    /// The field-wise sum of two tallies where both sums fit, else `None`.
    pub fn checked_plus(self, other: Count) -> (r: Option<Count>)
        ensures
            r.is_some() == self@.plus(other@).fits(),
            r.is_some() ==> r.unwrap()@ == self@.plus(other@),
    {
        if self.safe <= u64::MAX - other.safe && self.unsafe_ <= u64::MAX - other.unsafe_ {
            Some(self.plus(other))
        } else {
            None
        }
    }

    /// The field-wise sum of two tallies.
    pub fn plus(self, other: Count) -> (r: Count)
        requires
            self@.plus(other@).fits(),
        ensures
            r@ == self@.plus(other@),
    {
        count_sum(self, other)
    }
}

impl CounterBlock {
    pub fn new() -> (r: CounterBlock)
        ensures
            r@ == Tally::zero(),
    {
        CounterBlock {
            functions: Count::new(),
            exprs: Count::new(),
            item_impls: Count::new(),
            item_traits: Count::new(),
            methods: Count::new(),
        }
    }

    /// Whether any of the five kinds has an unsafe occurrence.
    pub fn has_unsafe(&self) -> (r: bool)
        ensures
            r == (self@.unsafe_total() > 0),
    {
        self.functions.unsafe_ > 0 || self.exprs.unsafe_ > 0 || self.item_impls.unsafe_ > 0
            || self.item_traits.unsafe_ > 0 || self.methods.unsafe_ > 0
    }

    /// The kind-wise sum of two blocks where every sum fits, else `None`.
    pub fn checked_plus(self, other: CounterBlock) -> (r: Option<CounterBlock>)
        ensures
            r.is_some() == self@.plus(other@).fits(),
            r.is_some() ==> r.unwrap()@ == self@.plus(other@),
    {
        match (
            self.functions.checked_plus(other.functions),
            self.exprs.checked_plus(other.exprs),
            self.item_impls.checked_plus(other.item_impls),
            self.item_traits.checked_plus(other.item_traits),
            self.methods.checked_plus(other.methods),
        ) {
            (Some(functions), Some(exprs), Some(item_impls), Some(item_traits), Some(methods)) => {
                Some(CounterBlock { functions, exprs, item_impls, item_traits, methods })
            },
            _ => None,
        }
    }

    /// The kind-wise sum of two blocks.
    pub fn plus(self, other: CounterBlock) -> (r: CounterBlock)
        requires
            self@.plus(other@).fits(),
        ensures
            r@ == self@.plus(other@),
    {
        CounterBlock {
            functions: self.functions.plus(other.functions),
            exprs: self.exprs.plus(other.exprs),
            item_impls: self.item_impls.plus(other.item_impls),
            item_traits: self.item_traits.plus(other.item_traits),
            methods: self.methods.plus(other.methods),
        }
    }
}

} // verus!
