//! Operators on labeled values: the result of combining two labeled values
//! carries the join of their labels; combining with a raw value keeps the label.
//! (Verified callers write the method form, such as `.not()`, for the unary operator.)
use crate::lattice::{Join, Label, Labeled, declassify};
use std::ops::{Add, BitOr, Div, Mul, Not, Rem, Sub};
use vstd::prelude::*;
use vstd::std_specs::ops::{
    AddSpec, AddSpecImpl, BitOrSpec, BitOrSpecImpl, DivSpec, DivSpecImpl, MulSpec, MulSpecImpl,
    NotSpecImpl, RemSpec, RemSpecImpl, SubSpec, SubSpecImpl,
};

verus! {

broadcast use crate::lattice::group_labeled;

// addition: labeled + labeled, under the join of the two labels
impl<T, L1, L2> Add<Labeled<T, L2>> for Labeled<T, L1> where
    T: Add<Output = T>,
    L1: Label + Join<L2>,
    L2: Label,
 {
    type Output = Labeled<T, <L1 as Join<L2>>::Out>;

    fn add(self, rhs: Labeled<T, L2>) -> (r: Self::Output) {
        Labeled::new(declassify(self) + declassify(rhs))
    }
}

impl<T, L1, L2> AddSpecImpl<Labeled<T, L2>> for Labeled<T, L1> where
    T: Add<Output = T>,
    L1: Label + Join<L2>,
    L2: Label,
 {
    open spec fn obeys_add_spec() -> bool {
        <T as AddSpec<T>>::obeys_add_spec()
    }

    open spec fn add_req(self, rhs: Labeled<T, L2>) -> bool {
        self@.add_req(rhs@)
    }

    open spec fn add_spec(self, rhs: Labeled<T, L2>) -> Self::Output {
        Labeled::spec_new(self@.add_spec(rhs@))
    }
}

// addition: labeled + raw value, under the label of the labeled operand
impl<T, L> Add<T> for Labeled<T, L> where T: Add<Output = T>, L: Label {
    type Output = Labeled<T, L>;

    fn add(self, rhs: T) -> (r: Self::Output) {
        Labeled::new(declassify(self) + rhs)
    }
}

impl<T, L> AddSpecImpl<T> for Labeled<T, L> where T: Add<Output = T>, L: Label {
    open spec fn obeys_add_spec() -> bool {
        <T as AddSpec<T>>::obeys_add_spec()
    }

    open spec fn add_req(self, rhs: T) -> bool {
        self@.add_req(rhs)
    }

    open spec fn add_spec(self, rhs: T) -> Self::Output {
        Labeled::spec_new(self@.add_spec(rhs))
    }
}

// subtraction: labeled - labeled, under the join of the two labels
impl<T, L1, L2> Sub<Labeled<T, L2>> for Labeled<T, L1> where
    T: Sub<Output = T>,
    L1: Label + Join<L2>,
    L2: Label,
 {
    type Output = Labeled<T, <L1 as Join<L2>>::Out>;

    fn sub(self, rhs: Labeled<T, L2>) -> (r: Self::Output) {
        Labeled::new(declassify(self) - declassify(rhs))
    }
}

impl<T, L1, L2> SubSpecImpl<Labeled<T, L2>> for Labeled<T, L1> where
    T: Sub<Output = T>,
    L1: Label + Join<L2>,
    L2: Label,
 {
    open spec fn obeys_sub_spec() -> bool {
        <T as SubSpec<T>>::obeys_sub_spec()
    }

    open spec fn sub_req(self, rhs: Labeled<T, L2>) -> bool {
        self@.sub_req(rhs@)
    }

    open spec fn sub_spec(self, rhs: Labeled<T, L2>) -> Self::Output {
        Labeled::spec_new(self@.sub_spec(rhs@))
    }
}

// subtraction: labeled - raw value, under the label of the labeled operand
impl<T, L> Sub<T> for Labeled<T, L> where T: Sub<Output = T>, L: Label {
    type Output = Labeled<T, L>;

    fn sub(self, rhs: T) -> (r: Self::Output) {
        Labeled::new(declassify(self) - rhs)
    }
}

impl<T, L> SubSpecImpl<T> for Labeled<T, L> where T: Sub<Output = T>, L: Label {
    open spec fn obeys_sub_spec() -> bool {
        <T as SubSpec<T>>::obeys_sub_spec()
    }

    open spec fn sub_req(self, rhs: T) -> bool {
        self@.sub_req(rhs)
    }

    open spec fn sub_spec(self, rhs: T) -> Self::Output {
        Labeled::spec_new(self@.sub_spec(rhs))
    }
}

// multiplication: labeled * labeled, under the join of the two labels
impl<T, L1, L2> Mul<Labeled<T, L2>> for Labeled<T, L1> where
    T: Mul<Output = T>,
    L1: Label + Join<L2>,
    L2: Label,
 {
    type Output = Labeled<T, <L1 as Join<L2>>::Out>;

    fn mul(self, rhs: Labeled<T, L2>) -> (r: Self::Output) {
        Labeled::new(declassify(self) * declassify(rhs))
    }
}

impl<T, L1, L2> MulSpecImpl<Labeled<T, L2>> for Labeled<T, L1> where
    T: Mul<Output = T>,
    L1: Label + Join<L2>,
    L2: Label,
 {
    open spec fn obeys_mul_spec() -> bool {
        <T as MulSpec<T>>::obeys_mul_spec()
    }

    open spec fn mul_req(self, rhs: Labeled<T, L2>) -> bool {
        self@.mul_req(rhs@)
    }

    open spec fn mul_spec(self, rhs: Labeled<T, L2>) -> Self::Output {
        Labeled::spec_new(self@.mul_spec(rhs@))
    }
}

// multiplication: labeled * raw value, under the label of the labeled operand
impl<T, L> Mul<T> for Labeled<T, L> where T: Mul<Output = T>, L: Label {
    type Output = Labeled<T, L>;

    fn mul(self, rhs: T) -> (r: Self::Output) {
        Labeled::new(declassify(self) * rhs)
    }
}

impl<T, L> MulSpecImpl<T> for Labeled<T, L> where T: Mul<Output = T>, L: Label {
    open spec fn obeys_mul_spec() -> bool {
        <T as MulSpec<T>>::obeys_mul_spec()
    }

    open spec fn mul_req(self, rhs: T) -> bool {
        self@.mul_req(rhs)
    }

    open spec fn mul_spec(self, rhs: T) -> Self::Output {
        Labeled::spec_new(self@.mul_spec(rhs))
    }
}

// division: labeled / labeled, under the join of the two labels
impl<T, L1, L2> Div<Labeled<T, L2>> for Labeled<T, L1> where
    T: Div<Output = T>,
    L1: Label + Join<L2>,
    L2: Label,
 {
    type Output = Labeled<T, <L1 as Join<L2>>::Out>;

    fn div(self, rhs: Labeled<T, L2>) -> (r: Self::Output) {
        Labeled::new(declassify(self) / declassify(rhs))
    }
}

impl<T, L1, L2> DivSpecImpl<Labeled<T, L2>> for Labeled<T, L1> where
    T: Div<Output = T>,
    L1: Label + Join<L2>,
    L2: Label,
 {
    open spec fn obeys_div_spec() -> bool {
        <T as DivSpec<T>>::obeys_div_spec()
    }

    open spec fn div_req(self, rhs: Labeled<T, L2>) -> bool {
        self@.div_req(rhs@)
    }

    open spec fn div_spec(self, rhs: Labeled<T, L2>) -> Self::Output {
        Labeled::spec_new(self@.div_spec(rhs@))
    }
}

// division: labeled / raw value, under the label of the labeled operand
impl<T, L> Div<T> for Labeled<T, L> where T: Div<Output = T>, L: Label {
    type Output = Labeled<T, L>;

    fn div(self, rhs: T) -> (r: Self::Output) {
        Labeled::new(declassify(self) / rhs)
    }
}

impl<T, L> DivSpecImpl<T> for Labeled<T, L> where T: Div<Output = T>, L: Label {
    open spec fn obeys_div_spec() -> bool {
        <T as DivSpec<T>>::obeys_div_spec()
    }

    open spec fn div_req(self, rhs: T) -> bool {
        self@.div_req(rhs)
    }

    open spec fn div_spec(self, rhs: T) -> Self::Output {
        Labeled::spec_new(self@.div_spec(rhs))
    }
}

// remainder: labeled % labeled, under the join of the two labels
impl<T, L1, L2> Rem<Labeled<T, L2>> for Labeled<T, L1> where
    T: Rem<Output = T>,
    L1: Label + Join<L2>,
    L2: Label,
 {
    type Output = Labeled<T, <L1 as Join<L2>>::Out>;

    fn rem(self, rhs: Labeled<T, L2>) -> (r: Self::Output) {
        Labeled::new(declassify(self) % declassify(rhs))
    }
}

impl<T, L1, L2> RemSpecImpl<Labeled<T, L2>> for Labeled<T, L1> where
    T: Rem<Output = T>,
    L1: Label + Join<L2>,
    L2: Label,
 {
    open spec fn obeys_rem_spec() -> bool {
        <T as RemSpec<T>>::obeys_rem_spec()
    }

    open spec fn rem_req(self, rhs: Labeled<T, L2>) -> bool {
        self@.rem_req(rhs@)
    }

    open spec fn rem_spec(self, rhs: Labeled<T, L2>) -> Self::Output {
        Labeled::spec_new(self@.rem_spec(rhs@))
    }
}

// remainder: labeled % raw value, under the label of the labeled operand
impl<T, L> Rem<T> for Labeled<T, L> where T: Rem<Output = T>, L: Label {
    type Output = Labeled<T, L>;

    fn rem(self, rhs: T) -> (r: Self::Output) {
        Labeled::new(declassify(self) % rhs)
    }
}

impl<T, L> RemSpecImpl<T> for Labeled<T, L> where T: Rem<Output = T>, L: Label {
    open spec fn obeys_rem_spec() -> bool {
        <T as RemSpec<T>>::obeys_rem_spec()
    }

    open spec fn rem_req(self, rhs: T) -> bool {
        self@.rem_req(rhs)
    }

    open spec fn rem_spec(self, rhs: T) -> Self::Output {
        Labeled::spec_new(self@.rem_spec(rhs))
    }
}

// bitwise or: labeled | labeled, under the join of the two labels
impl<T, L1, L2> BitOr<Labeled<T, L2>> for Labeled<T, L1> where
    T: BitOr<Output = T>,
    L1: Label + Join<L2>,
    L2: Label,
 {
    type Output = Labeled<T, <L1 as Join<L2>>::Out>;

    fn bitor(self, rhs: Labeled<T, L2>) -> (r: Self::Output) {
        Labeled::new(declassify(self) | declassify(rhs))
    }
}

impl<T, L1, L2> BitOrSpecImpl<Labeled<T, L2>> for Labeled<T, L1> where
    T: BitOr<Output = T>,
    L1: Label + Join<L2>,
    L2: Label,
 {
    open spec fn obeys_bitor_spec() -> bool {
        <T as BitOrSpec<T>>::obeys_bitor_spec()
    }

    open spec fn bitor_req(self, rhs: Labeled<T, L2>) -> bool {
        self@.bitor_req(rhs@)
    }

    open spec fn bitor_spec(self, rhs: Labeled<T, L2>) -> Self::Output {
        Labeled::spec_new(self@.bitor_spec(rhs@))
    }
}

// negation: !labeled, under the same label
impl<L: Label> Not for Labeled<bool, L> {
    type Output = Labeled<bool, L>;

    fn not(self) -> (r: Self::Output) {
        Labeled::new(!declassify(self))
    }
}

impl<L: Label> NotSpecImpl for Labeled<bool, L> {
    open spec fn obeys_not_spec() -> bool {
        true
    }

    open spec fn not_req(self) -> bool {
        true
    }

    open spec fn not_spec(self) -> Self::Output {
        Labeled::spec_new(!self@)
    }
}

} // verus!
