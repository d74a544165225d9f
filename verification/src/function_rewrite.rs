//! Chaining a computation through a labeled value: the function sees the raw value,
//! and its labeled result comes back under the join of the input's label and its own.
//! Raw (unlabeled) values take part as public values.
use crate::lattice::{Join, Label, Labeled, Public, declassify};
use vstd::prelude::*;

verus! {

broadcast use crate::lattice::group_labeled;

impl<T, L: Label> Labeled<T, L> {
    /// Runs `f` on the value and labels its result with the join of `L` and the
    /// label of `f`'s result.
    pub fn __chain<R, L2, F>(self, f: F) -> (r: Labeled<R, <L as Join<L2>>::Out>) where
        L2: Label,
        L: Join<L2>,
        F: FnOnce(T) -> Labeled<R, L2>,

        requires
            f.requires((self@,)),
        ensures
            f.ensures((self@,), Labeled::<R, L2>::spec_new(r@)),
    {
        let inner_res = f(declassify(self));
        Labeled::new(declassify(inner_res))
    }

    /// Like `__chain`, but `f` borrows the value.
    pub fn __chain_ref<'a, R, L2, F>(&'a self, f: F) -> (r: Labeled<R, <L as Join<L2>>::Out>) where
        L2: Label,
        L: Join<L2>,
        F: FnOnce(&'a T) -> Labeled<R, L2>,

        requires
            f.requires((&self@,)),
        ensures
            f.ensures((&self@,), Labeled::<R, L2>::spec_new(r@)),
    {
        let inner_res = f(self.declassify_ref());
        Labeled::new(declassify(inner_res))
    }

    /// Like `__chain`, but `f` mutates the value; the (possibly changed) value and
    /// `f`'s result come back together under the joined label.
    pub fn __chain_mut<R, L2, F>(self, f: F) -> (r: Labeled<(T, R), <L as Join<L2>>::Out>) where
        L2: Label,
        L: Join<L2>,
        F: FnOnce(&mut T) -> Labeled<R, L2>,

        requires
            forall|m: &mut T| *m == self@ ==> f.requires((m,)),
        ensures
            exists|m: &mut T|
                *m == self@ && *final(m) == r@.0 && f.ensures((m,), Labeled::<R, L2>::spec_new(r@.1)),
    {
        let mut value = declassify(self);
        let ret = f(&mut value);
        Labeled::new((value, declassify(ret)))
    }
}

/// Chaining for raw values, which take part as public values.
pub trait SecureChain<T, L: Label> {
    /// The value that the chained function receives.
    spec fn chain_input(self) -> T;

    fn __chain<R, L2, F>(self, f: F) -> (r: Labeled<R, <L as Join<L2>>::Out>) where
        L2: Label,
        L: Join<L2>,
        F: FnOnce(T) -> Labeled<R, L2>,
        Self: Sized,

        requires
            f.requires((self.chain_input(),)),
        ensures
            f.ensures((self.chain_input(),), Labeled::<R, L2>::spec_new(r@)),
    ;
}

impl<T> SecureChain<T, Public> for T where T: Sized {
    open spec fn chain_input(self) -> T {
        self
    }

    fn __chain<R, L2, F>(self, f: F) -> (r: Labeled<R, <Public as Join<L2>>::Out>) where
        L2: Label,
        Public: Join<L2>,
        F: FnOnce(T) -> Labeled<R, L2>,
    {
        let inner_res = f(self);
        Labeled::new(declassify(inner_res))
    }
}

/// Borrowing chain for raw values, which take part as public values.
pub trait SecureChainRef<T, L: Label> {
    /// The value that the chained function borrows.
    spec fn chain_ref_input(&self) -> T;

    fn __chain_ref<R, L2, F>(&self, f: F) -> (r: Labeled<R, <L as Join<L2>>::Out>) where
        L2: Label,
        L: Join<L2>,
        F: FnOnce(&T) -> Labeled<R, L2>,

        requires
            f.requires((&self.chain_ref_input(),)),
        ensures
            f.ensures((&self.chain_ref_input(),), Labeled::<R, L2>::spec_new(r@)),
    ;
}

impl<T> SecureChainRef<T, Public> for T where T: Sized {
    open spec fn chain_ref_input(&self) -> T {
        *self
    }

    fn __chain_ref<R, L2, F>(&self, f: F) -> (r: Labeled<R, <Public as Join<L2>>::Out>) where
        L2: Label,
        Public: Join<L2>,
        F: FnOnce(&T) -> Labeled<R, L2>,
    {
        let inner_res = f(self);
        Labeled::new(declassify(inner_res))
    }
}

/// Mutating chain for raw values, which take part as public values: the changed
/// value and the function's result come back together.
pub trait SecureChainMut<T, L: Label> {
    /// The value that the chained function receives to mutate.
    spec fn chain_mut_input(self) -> T;

    fn __chain_mut<R, L2, F>(self, f: F) -> (r: Labeled<(T, R), <L as Join<L2>>::Out>) where
        L2: Label,
        L: Join<L2>,
        F: FnOnce(&mut T) -> Labeled<R, L2>,
        Self: Sized,

        requires
            forall|m: &mut T| *m == self.chain_mut_input() ==> f.requires((m,)),
        ensures
            exists|m: &mut T|
                *m == self.chain_mut_input() && *final(m) == r@.0 && f.ensures(
                    (m,),
                    Labeled::<R, L2>::spec_new(r@.1),
                ),
    ;
}

impl<T> SecureChainMut<T, Public> for T where T: Sized {
    open spec fn chain_mut_input(self) -> T {
        self
    }

    fn __chain_mut<R, L2, F>(self, f: F) -> (r: Labeled<(T, R), <Public as Join<L2>>::Out>) where
        L2: Label,
        Public: Join<L2>,
        F: FnOnce(&mut T) -> Labeled<R, L2>,
    {
        let mut value = self;
        let ret = f(&mut value);
        Labeled::new((value, declassify(ret)))
    }
}

} // verus!
