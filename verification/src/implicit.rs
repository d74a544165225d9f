//! Implicit flows: side-effect-free marking, condition inspection, program-counter
//! joins and the guarded assignments that forbid writing down under a secret context.
use crate::lattice::{
    FlowsTo, Join, Label, Labeled, Leveled, Public, SecurityLevel, level_flows, level_join,
};
use std::marker::PhantomData;
use vstd::prelude::*;

verus! {

broadcast use crate::lattice::group_labeled;

// ---------------------------------------------------------------------------
// Side-effect-free marking
// ---------------------------------------------------------------------------

/// Marker for types that are safe to handle in implicit-flow blocks: dropping or
/// cloning them has no visible side effect (such as I/O).
pub trait InvisibleSideEffectFree {
    fn check_all_types() {
    }
}

/// A value that has been vetted as side-effect free.
pub struct Vetted<T> where T: InvisibleSideEffectFree {
    item: T,
}

impl<T> View for Vetted<T> where T: InvisibleSideEffectFree {
    type V = T;

    closed spec fn view(&self) -> T {
        self.item
    }
}

impl<T> Vetted<T> where T: InvisibleSideEffectFree {
    /// Marks a return value as side-effect free.
    pub fn wrap(item: T) -> (r: Self)
        ensures
            r@ == item,
    {
        Vetted::<T> { item }
    }

    /// Extracts the vetted value.
    pub fn unwrap(self) -> (r: T)
        ensures
            r == self@,
    {
        self.item
    }
}

impl<T: InvisibleSideEffectFree> InvisibleSideEffectFree for Vetted<T> {}

/// Passes a value through unchanged; it only compiles for side-effect-free types.
pub fn check_isef<T: InvisibleSideEffectFree>(x: T) -> (r: T)
    ensures
        r == x,
{
    x
}

impl InvisibleSideEffectFree for i8 {}

impl InvisibleSideEffectFree for i16 {}

impl InvisibleSideEffectFree for i32 {}

impl InvisibleSideEffectFree for i64 {}

impl InvisibleSideEffectFree for isize {}

impl InvisibleSideEffectFree for u8 {}

impl InvisibleSideEffectFree for u16 {}

impl InvisibleSideEffectFree for u32 {}

impl InvisibleSideEffectFree for u64 {}

impl InvisibleSideEffectFree for usize {}

impl InvisibleSideEffectFree for bool {}

impl InvisibleSideEffectFree for char {}

impl InvisibleSideEffectFree for () {}

impl<T: InvisibleSideEffectFree> InvisibleSideEffectFree for [T] {}

impl<T: InvisibleSideEffectFree> InvisibleSideEffectFree for &[T] {}

impl<T: InvisibleSideEffectFree> InvisibleSideEffectFree for &mut [T] {}

impl<T: InvisibleSideEffectFree, const N: usize> InvisibleSideEffectFree for [T; N] {}

impl InvisibleSideEffectFree for String {}

impl<T: InvisibleSideEffectFree> InvisibleSideEffectFree for Option<T> {}

impl<T: InvisibleSideEffectFree> InvisibleSideEffectFree for Vec<T> {}

impl<T: InvisibleSideEffectFree> InvisibleSideEffectFree for Box<T> {}

impl<T: InvisibleSideEffectFree> InvisibleSideEffectFree for &T {}

impl<T: InvisibleSideEffectFree> InvisibleSideEffectFree for &mut T {}

impl InvisibleSideEffectFree for &str {}

impl<T: InvisibleSideEffectFree, L: Label> InvisibleSideEffectFree for Labeled<T, L> {}

impl<'a, T: InvisibleSideEffectFree> InvisibleSideEffectFree for std::slice::Iter<'a, T> {}

/// The instant type of std, carried through opaquely.
#[verifier::external_type_specification]
#[verifier::external_body]
pub struct ExInstant(std::time::Instant);

impl InvisibleSideEffectFree for std::time::Instant {}

// ---------------------------------------------------------------------------
// Conditions
// ---------------------------------------------------------------------------

/// A condition of an `if`: its boolean value together with a token of its label.
pub trait ConditionInspect {
    type Label: Label;

    /// The boolean value of the condition.
    spec fn spec_condition(self) -> bool;

    fn inspect(self) -> (r: (bool, Self::Label))
        ensures
            r.0 == self.spec_condition(),
    ;
}

/// A plain boolean is a public condition.
impl ConditionInspect for bool {
    type Label = Public;

    open spec fn spec_condition(self) -> bool {
        self
    }

    fn inspect(self) -> (r: (bool, Public)) {
        (self, Public)
    }
}

/// A labeled boolean is a condition at its label.
impl<L: Label + Default> ConditionInspect for Labeled<bool, L> {
    type Label = L;

    open spec fn spec_condition(self) -> bool {
        self@
    }

    fn inspect(self) -> (r: (bool, L)) {
        (*self.declassify_ref(), L::default())
    }
}

/// Splits an `if` condition into its value and the token of its label.
pub fn inspect_condition<C: ConditionInspect>(cond: C) -> (r: (bool, C::Label))
    ensures
        r.0 == cond.spec_condition(),
{
    cond.inspect()
}

/// Escape hatch for operations that the flow checks do not vet: returns the value unchanged.
pub fn unchecked_operation<T>(val: T) -> (r: T)
    ensures
        r == val,
{
    val
}

// ---------------------------------------------------------------------------
// Program counter
// ---------------------------------------------------------------------------

/// Joins the current program-counter label with the label of a new condition;
/// the token returned stands for the join of the two levels.
pub fn join_labels<L1: Label, L2: Label>(current_pc: L1, new_label: L2) -> (r: <L1 as Join<L2>>::Out) where
    L1: Join<L2>,
    ensures
        <<L1 as Join<L2>>::Out as Leveled>::level() == level_join(L1::level(), L2::level()),
{
    proof {
        <L1 as Join<L2>>::lemma_join_level();
    }
    <L1 as Join<L2>>::Out::default()
}

/// Guard for an assignment whose source carries the destination's label: only
/// compiles when the program counter may flow to the destination; changes nothing.
pub fn pc_guard_assign<T, Dest, PC>(dest: &mut Labeled<T, Dest>, pc: PC) where
    Dest: Label,
    PC: Label + FlowsTo<Dest>,

    ensures
        *final(dest) == *old(dest),
        level_flows(PC::level(), Dest::level()),
{
    proof {
        <PC as FlowsTo<Dest>>::lemma_flows_level();
    }
}

/// Assignment that enforces both explicit flow (the source's label flows to the
/// destination's) and implicit flow (the program counter flows to the destination):
/// no write to a public variable inside a secret branch.
pub fn secure_assign_with_pc<T, Dest, Src, PC>(
    dest: &mut Labeled<T, Dest>,
    src: Labeled<T, Src>,
    pc: PC,
) where Dest: Label, Src: Label + FlowsTo<Dest>, PC: Label + FlowsTo<Dest>
    ensures
        final(dest)@ == src@,
        level_flows(Src::level(), Dest::level()),
        level_flows(PC::level(), Dest::level()),
{
    proof {
        <Src as FlowsTo<Dest>>::lemma_flows_level();
        <PC as FlowsTo<Dest>>::lemma_flows_level();
    }
    *dest.declassify_ref_mut() = crate::lattice::declassify(src);
}

/// No write down from a branch: inside a branch on a condition at level `cond`,
/// entered under the program counter `pc`, the program counter is their join, and an
/// assignment is only accepted into a destination to which both the condition and
/// the outer program counter flow. In particular nothing is written to a public
/// destination inside a branch on a secret condition.
pub proof fn lemma_branch_assignment_dominates_condition(
    pc: SecurityLevel,
    cond: SecurityLevel,
    dest: SecurityLevel,
)
    requires
        level_flows(level_join(pc, cond), dest),
    ensures
        level_flows(cond, dest),
        level_flows(pc, dest),
        cond != SecurityLevel::Public ==> dest != SecurityLevel::Public,
{
}

// ---------------------------------------------------------------------------
// Results of calls inside program-counter blocks
// ---------------------------------------------------------------------------

/// Holds the result of a call inside a program-counter block, to hand it on: a
/// vetted result (`PcCallResult<Vetted<T>>`) is unwrapped by the inherent
/// `wrap_result`, and any other result is labeled public by the fallback trait's
/// `wrap_result`, which the inherent method takes precedence over only where it
/// applies.
pub struct PcCallResult<T>(pub T);

impl<T: InvisibleSideEffectFree> PcCallResult<Vetted<T>> {
    /// A vetted result is unwrapped.
    pub fn wrap_result(self) -> (r: T)
        ensures
            r == self.0@,
    {
        self.0.unwrap()
    }
}

/// Fallback for results that are not vetted: they are labeled public.
pub trait PcCallResultFallback<T> {
    /// The result held.
    spec fn held(self) -> T;

    fn wrap_result(self) -> (r: Labeled<T, Public>)
        ensures
            r@ == self.held(),
    ;
}

impl<T: InvisibleSideEffectFree> PcCallResultFallback<T> for PcCallResult<T> {
    open spec fn held(self) -> T {
        self.0
    }

    fn wrap_result(self) -> (r: Labeled<T, Public>) {
        Labeled::new(self.0)
    }
}

/// Side-effect check that depends on the program counter: under a public
/// program counter anything goes, under a secret one only side-effect-free values.
pub struct PcIsef<PC: Label>(PhantomData<PC>);

impl<PC: Label> PcIsef<PC> {
    /// A checker for the program counter `pc` (a token that holds no data).
    pub fn new(pc: &PC) -> (r: Self) {
        PcIsef(PhantomData)
    }
}

impl PcIsef<Public> {
    /// Under a public program counter every value passes unchanged.
    pub fn check<T>(&self, x: T) -> (r: T)
        ensures
            r == x,
    {
        x
    }

    /// Under a public program counter side-effecting macros are allowed.
    pub fn reject_side_effecting_macro<T>(&self, x: T) -> (r: T)
        ensures
            r == x,
    {
        x
    }
}

/// The checks under any program counter: only side-effect-free values pass, and
/// side-effecting macros are rejected (nothing implements `MacroSideEffectFree`).
pub trait PcIsefFallback {
    fn check<T: InvisibleSideEffectFree>(&self, x: T) -> (r: T)
        ensures
            r == x,
    ;

    fn reject_side_effecting_macro<T: MacroSideEffectFree>(&self, x: T) -> (r: T)
        ensures
            r == x,
    ;
}

/// Marker that nothing implements: it rejects side-effecting macros under a secret program counter.
pub trait MacroSideEffectFree {}

impl<PC: Label> PcIsefFallback for PcIsef<PC> {
    fn check<T: InvisibleSideEffectFree>(&self, x: T) -> (r: T) {
        x
    }

    fn reject_side_effecting_macro<T: MacroSideEffectFree>(&self, x: T) -> (r: T) {
        x
    }
}

} // verus!
