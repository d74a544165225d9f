//! Comparisons on labeled values. The standard comparisons look through the label;
//! the labeled comparisons and logical operators keep the (joined) label on their result.
use crate::lattice::{Join, Label, Labeled};
use std::cmp::Ordering;
use vstd::prelude::*;
use vstd::std_specs::cmp::{PartialEqSpec, PartialEqSpecImpl, PartialOrdSpec, PartialOrdSpecImpl};

verus! {

broadcast use crate::lattice::group_labeled;

impl<T: PartialEq, L: Label> PartialEq for Labeled<T, L> {
    fn eq(&self, other: &Self) -> (r: bool) {
        self.declassify_ref().eq(other.declassify_ref())
    }
}

impl<T: PartialEq, L: Label> PartialEqSpecImpl for Labeled<T, L> {
    open spec fn obeys_eq_spec() -> bool {
        T::obeys_eq_spec()
    }

    open spec fn eq_spec(&self, other: &Self) -> bool {
        self@.eq_spec(&other@)
    }
}

impl<T: Eq, L: Label> Eq for Labeled<T, L> {}

impl<T: PartialEq, L: Label> PartialEq<T> for Labeled<T, L> {
    fn eq(&self, other: &T) -> (r: bool) {
        self.declassify_ref().eq(other)
    }
}

impl<T: PartialEq, L: Label> PartialEqSpecImpl<T> for Labeled<T, L> {
    open spec fn obeys_eq_spec() -> bool {
        T::obeys_eq_spec()
    }

    open spec fn eq_spec(&self, other: &T) -> bool {
        self@.eq_spec(other)
    }
}

impl<T: PartialOrd, L: Label> PartialOrd for Labeled<T, L> {
    fn partial_cmp(&self, other: &Self) -> (r: Option<Ordering>) {
        self.declassify_ref().partial_cmp(other.declassify_ref())
    }
}

impl<T: PartialOrd, L: Label> PartialOrdSpecImpl for Labeled<T, L> {
    open spec fn obeys_partial_cmp_spec() -> bool {
        T::obeys_partial_cmp_spec()
    }

    open spec fn partial_cmp_spec(&self, other: &Self) -> Option<Ordering> {
        self@.partial_cmp_spec(&other@)
    }
}

impl<T: PartialOrd, L: Label> PartialOrd<T> for Labeled<T, L> {
    fn partial_cmp(&self, other: &T) -> (r: Option<Ordering>) {
        self.declassify_ref().partial_cmp(other)
    }
}

impl<T: PartialOrd, L: Label> PartialOrdSpecImpl<T> for Labeled<T, L> {
    open spec fn obeys_partial_cmp_spec() -> bool {
        T::obeys_partial_cmp_spec()
    }

    open spec fn partial_cmp_spec(&self, other: &T) -> Option<Ordering> {
        self@.partial_cmp_spec(other)
    }
}

/// Comparisons whose result keeps the label of what was compared.
pub trait LabeledCmp<Rhs> {
    type Output;

    fn labeled_eq(self, rhs: Rhs) -> Self::Output;

    fn labeled_ne(self, rhs: Rhs) -> Self::Output;
}

/// `Labeled<T, L1>` compared with `Labeled<T, L2>` gives a `bool` under the join of the labels.
impl<T: PartialEq, L1: Label + Join<L2>, L2: Label> LabeledCmp<Labeled<T, L2>> for Labeled<T, L1> {
    type Output = Labeled<bool, <L1 as Join<L2>>::Out>;

    fn labeled_eq(self, rhs: Labeled<T, L2>) -> (r: Self::Output)
        ensures
            T::obeys_eq_spec() ==> r@ == self@.eq_spec(&rhs@),
    {
        Labeled::new(self.declassify_ref().eq(rhs.declassify_ref()))
    }

    fn labeled_ne(self, rhs: Labeled<T, L2>) -> (r: Self::Output)
        ensures
            T::obeys_eq_spec() ==> r@ == !self@.eq_spec(&rhs@),
    {
        Labeled::new(!self.declassify_ref().eq(rhs.declassify_ref()))
    }
}

/// `Labeled<T, L>` compared with a raw `T` gives a `bool` under `L`.
impl<T: PartialEq, L: Label> LabeledCmp<T> for Labeled<T, L> {
    type Output = Labeled<bool, L>;

    fn labeled_eq(self, rhs: T) -> (r: Self::Output)
        ensures
            T::obeys_eq_spec() ==> r@ == self@.eq_spec(&rhs),
    {
        Labeled::new(self.declassify_ref().eq(&rhs))
    }

    fn labeled_ne(self, rhs: T) -> (r: Self::Output)
        ensures
            T::obeys_eq_spec() ==> r@ == !self@.eq_spec(&rhs),
    {
        Labeled::new(!self.declassify_ref().eq(&rhs))
    }
}

/// Conjunction whose result keeps the label of its operands.
pub trait LabeledAnd<Rhs> {
    type Output;

    fn labeled_and(self, rhs: Rhs) -> Self::Output;
}

/// Disjunction whose result keeps the label of its operands.
pub trait LabeledOr<Rhs> {
    type Output;

    fn labeled_or(self, rhs: Rhs) -> Self::Output;
}

impl<L1: Label + Join<L2>, L2: Label> LabeledAnd<Labeled<bool, L2>> for Labeled<bool, L1> {
    type Output = Labeled<bool, <L1 as Join<L2>>::Out>;

    fn labeled_and(self, rhs: Labeled<bool, L2>) -> (r: Self::Output)
        ensures
            r@ == (self@ && rhs@),
    {
        Labeled::new(*self.declassify_ref() && *rhs.declassify_ref())
    }
}

impl<L: Label> LabeledAnd<bool> for Labeled<bool, L> {
    type Output = Labeled<bool, L>;

    fn labeled_and(self, rhs: bool) -> (r: Self::Output)
        ensures
            r@ == (self@ && rhs),
    {
        Labeled::new(*self.declassify_ref() && rhs)
    }
}

impl LabeledAnd<bool> for bool {
    type Output = bool;

    fn labeled_and(self, rhs: bool) -> (r: bool)
        ensures
            r == (self && rhs),
    {
        self && rhs
    }
}

impl<L1: Label + Join<L2>, L2: Label> LabeledOr<Labeled<bool, L2>> for Labeled<bool, L1> {
    type Output = Labeled<bool, <L1 as Join<L2>>::Out>;

    fn labeled_or(self, rhs: Labeled<bool, L2>) -> (r: Self::Output)
        ensures
            r@ == (self@ || rhs@),
    {
        Labeled::new(*self.declassify_ref() || *rhs.declassify_ref())
    }
}

impl<L: Label> LabeledOr<bool> for Labeled<bool, L> {
    type Output = Labeled<bool, L>;

    fn labeled_or(self, rhs: bool) -> (r: Self::Output)
        ensures
            r@ == (self@ || rhs),
    {
        Labeled::new(*self.declassify_ref() || rhs)
    }
}

impl LabeledOr<bool> for bool {
    type Output = bool;

    fn labeled_or(self, rhs: bool) -> (r: bool)
        ensures
            r == (self || rhs),
    {
        self || rhs
    }
}

} // verus!
