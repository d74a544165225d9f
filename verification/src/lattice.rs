//! Security labels, the lattice they form, and the `Labeled` container that
//! carries a value together with the label of the information it holds.
use std::hash::{Hash, Hasher};
use std::marker::PhantomData;
use std::ops::{Add, BitOr, Div, Mul, Not, Rem, Sub};
use vstd::prelude::*;
use vstd::std_specs::ops::{
    AddSpec, AddSpecImpl, BitOrSpec, BitOrSpecImpl, DivSpec, DivSpecImpl, MulSpec, MulSpecImpl,
    NotSpecImpl, RemSpec, RemSpecImpl, SubSpec, SubSpecImpl,
};
use vstd::std_specs::cmp::{PartialEqSpec, PartialEqSpecImpl};

verus! {

// ---------------------------------------------------------------------------
// The mathematical lattice
// ---------------------------------------------------------------------------

/// The security levels, as mathematical values: `Public` is the bottom,
/// `AB` (the join of the two compartments `A` and `B`) is the top.
pub enum SecurityLevel {
    Public,
    A,
    B,
    AB,
}

/// Least upper bound of two security levels.
pub open spec fn level_join(a: SecurityLevel, b: SecurityLevel) -> SecurityLevel {
    match (a, b) {
        (SecurityLevel::Public, y) => y,
        (x, SecurityLevel::Public) => x,
        (SecurityLevel::A, SecurityLevel::A) => SecurityLevel::A,
        (SecurityLevel::B, SecurityLevel::B) => SecurityLevel::B,
        _ => SecurityLevel::AB,
    }
}

/// Information at level `a` may flow to level `b` (`a` is below or equal to `b`).
pub open spec fn level_flows(a: SecurityLevel, b: SecurityLevel) -> bool {
    match (a, b) {
        (SecurityLevel::Public, _) => true,
        (_, SecurityLevel::AB) => true,
        (SecurityLevel::A, SecurityLevel::A) => true,
        (SecurityLevel::B, SecurityLevel::B) => true,
        _ => false,
    }
}

/// Joining is commutative.
pub proof fn lemma_join_commutative(a: SecurityLevel, b: SecurityLevel)
    ensures
        level_join(a, b) == level_join(b, a),
{
}

/// Joining is associative.
pub proof fn lemma_join_associative(a: SecurityLevel, b: SecurityLevel, c: SecurityLevel)
    ensures
        level_join(level_join(a, b), c) == level_join(a, level_join(b, c)),
{
}

/// Joining a level with itself gives the level back.
pub proof fn lemma_join_idempotent(a: SecurityLevel)
    ensures
        level_join(a, a) == a,
{
}

/// `Public` is the bottom of the lattice: joining with it changes nothing,
/// and it flows everywhere.
pub proof fn lemma_public_is_bottom(a: SecurityLevel)
    ensures
        level_join(SecurityLevel::Public, a) == a,
        level_join(a, SecurityLevel::Public) == a,
        level_flows(SecurityLevel::Public, a),
{
}

/// `AB` is the top of the lattice: joining with it gives `AB`, and every level flows to it.
pub proof fn lemma_ab_is_top(a: SecurityLevel)
    ensures
        level_join(SecurityLevel::AB, a) == SecurityLevel::AB,
        level_join(a, SecurityLevel::AB) == SecurityLevel::AB,
        level_flows(a, SecurityLevel::AB),
{
}

/// Flows-to is a partial order: reflexive, antisymmetric and transitive.
pub proof fn lemma_flows_partial_order(a: SecurityLevel, b: SecurityLevel, c: SecurityLevel)
    ensures
        level_flows(a, a),
        level_flows(a, b) && level_flows(b, a) ==> a == b,
        level_flows(a, b) && level_flows(b, c) ==> level_flows(a, c),
{
}

/// The join is the least upper bound with respect to flows-to.
pub proof fn lemma_join_is_least_upper_bound(a: SecurityLevel, b: SecurityLevel, c: SecurityLevel)
    ensures
        level_flows(a, level_join(a, b)),
        level_flows(b, level_join(a, b)),
        level_flows(a, c) && level_flows(b, c) ==> level_flows(level_join(a, b), c),
{
}

/// Flowing is the order that the join induces: `a` flows to `b` exactly when
/// joining `a` into `b` leaves `b` unchanged.
pub proof fn lemma_flows_iff_join(a: SecurityLevel, b: SecurityLevel)
    ensures
        level_flows(a, b) <==> level_join(a, b) == b,
{
}

/// `A` and `B` are incomparable compartments; only their join `AB` holds both.
pub proof fn lemma_compartments_incomparable()
    ensures
        !level_flows(SecurityLevel::A, SecurityLevel::B),
        !level_flows(SecurityLevel::B, SecurityLevel::A),
        !level_flows(SecurityLevel::AB, SecurityLevel::A),
        !level_flows(SecurityLevel::AB, SecurityLevel::B),
        !level_flows(SecurityLevel::A, SecurityLevel::Public),
        level_join(SecurityLevel::A, SecurityLevel::B) == SecurityLevel::AB,
{
}

// ---------------------------------------------------------------------------
// Label types
// ---------------------------------------------------------------------------

/// A type that stands for one security level.
pub trait Leveled {
    /// The security level this type stands for.
    spec fn level() -> SecurityLevel;
}

/// The security labels used to tag data and execution contexts.
///
/// Joining a label with `Public` gives the label back (each label's `Join<Public>`
/// impl has `Out = Self`), but this is not a supertrait bound: with it, each
/// `Join` impl would depend on itself through the bound on `Join::Out`, a cycle
/// that Verus refuses. Generic code over `L: Label` that needs the join with
/// `Public` (or with `L` itself) to be `L` states `L: Join<Public, Out = L>` (or
/// `L: Join<L, Out = L>`) where it needs it.
pub trait Label: Clone + Copy + Default + Send + Sync + Leveled + 'static {}

/// The public label (bottom of the lattice).
#[derive(Clone, Copy, Default)]
pub struct Public;

/// The secret compartment `A`.
#[derive(Clone, Copy, Default)]
pub struct A;

/// The secret compartment `B`.
#[derive(Clone, Copy, Default)]
pub struct B;

/// The join of `A` and `B` (top of the lattice).
#[derive(Clone, Copy, Default)]
pub struct AB;

impl Leveled for Public {
    open spec fn level() -> SecurityLevel {
        SecurityLevel::Public
    }
}

impl Leveled for A {
    open spec fn level() -> SecurityLevel {
        SecurityLevel::A
    }
}

impl Leveled for B {
    open spec fn level() -> SecurityLevel {
        SecurityLevel::B
    }
}

impl Leveled for AB {
    open spec fn level() -> SecurityLevel {
        SecurityLevel::AB
    }
}

impl Label for Public {}

impl Label for A {}

impl Label for B {}

impl Label for AB {}

/// The least upper bound of two labels, computed at the type level.
/// Every implementation proves that its `Out` stands for the join of the two levels.
pub trait Join<Other: Label>: Leveled {
    type Out: Label;

    proof fn lemma_join_level()
        ensures
            <Self::Out as Leveled>::level() == level_join(Self::level(), Other::level()),
    ;
}

impl<L: Label> Join<L> for Public {
    type Out = L;

    proof fn lemma_join_level() {
    }
}

impl Join<Public> for A {
    type Out = A;

    proof fn lemma_join_level() {
    }
}

impl Join<A> for A {
    type Out = A;

    proof fn lemma_join_level() {
    }
}

impl Join<B> for A {
    type Out = AB;

    proof fn lemma_join_level() {
    }
}

impl Join<AB> for A {
    type Out = AB;

    proof fn lemma_join_level() {
    }
}

impl Join<Public> for B {
    type Out = B;

    proof fn lemma_join_level() {
    }
}

impl Join<A> for B {
    type Out = AB;

    proof fn lemma_join_level() {
    }
}

impl Join<B> for B {
    type Out = B;

    proof fn lemma_join_level() {
    }
}

impl Join<AB> for B {
    type Out = AB;

    proof fn lemma_join_level() {
    }
}

impl Join<Public> for AB {
    type Out = AB;

    proof fn lemma_join_level() {
    }
}

impl Join<A> for AB {
    type Out = AB;

    proof fn lemma_join_level() {
    }
}

impl Join<B> for AB {
    type Out = AB;

    proof fn lemma_join_level() {
    }
}

impl Join<AB> for AB {
    type Out = AB;

    proof fn lemma_join_level() {
    }
}

/// "Information may flow from `Self` to `Target`" (no write down).
/// Every implementation proves that the two levels are ordered.
pub trait FlowsTo<Target: Label>: Label {
    proof fn lemma_flows_level()
        ensures
            level_flows(Self::level(), Target::level()),
    ;
}

impl<L: Label> FlowsTo<L> for L {
    proof fn lemma_flows_level() {
    }
}

impl FlowsTo<A> for Public {
    proof fn lemma_flows_level() {
    }
}

impl FlowsTo<B> for Public {
    proof fn lemma_flows_level() {
    }
}

impl FlowsTo<AB> for Public {
    proof fn lemma_flows_level() {
    }
}

impl FlowsTo<AB> for A {
    proof fn lemma_flows_level() {
    }
}

impl FlowsTo<AB> for B {
    proof fn lemma_flows_level() {
    }
}

// ---------------------------------------------------------------------------
// The labeled container
// ---------------------------------------------------------------------------

/// A value `T` tagged with the security label `L`.
/// The value is only reachable through the operations of this library.
pub struct Labeled<T, L: Label> {
    value: T,
    _marker: PhantomData<L>,
}

impl<T, L: Label> View for Labeled<T, L> {
    type V = T;

    /// The value held inside the label.
    closed spec fn view(&self) -> T {
        self.value
    }
}

impl<T, L: Label> Labeled<T, L> {
    /// The labeled value that holds `value` (specification counterpart of `new`).
    pub closed spec fn spec_new(value: T) -> Self {
        Labeled { value, _marker: PhantomData }
    }

    /// Labels `value` with `L`.
    pub fn new(value: T) -> (r: Self)
        ensures
            r@ == value,
            r == Self::spec_new(value),
    {
        Labeled { value, _marker: PhantomData }
    }

    /// A labeled reference to the value, under the same label.
    pub fn as_ref(&self) -> (r: Labeled<&T, L>)
        ensures
            *r@ == self@,
    {
        Labeled { value: &self.value, _marker: PhantomData }
    }

    /// Consumes the labeled value and labels the result of `f` on it with the same label.
    pub fn __map<R, F: FnOnce(T) -> R>(self, f: F) -> (r: Labeled<R, L>)
        requires
            f.requires((self@,)),
        ensures
            f.ensures((self@,), r@),
    {
        Labeled::new(f(self.value))
    }

    /// Labels the result of `f` on a reference to the value with the same label.
    pub fn __map_ref<R, F: FnOnce(&T) -> R>(&self, f: F) -> (r: Labeled<R, L>)
        requires
            f.requires((&self@,)),
        ensures
            f.ensures((&self@,), r@),
    {
        Labeled::new(f(&self.value))
    }

    /// Declassifies by reference: strips the label and returns a reference to the value.
    pub fn declassify_ref(&self) -> (r: &T)
        ensures
            *r == self@,
    {
        &self.value
    }

    /// Declassifies by mutable reference: strips the label and returns a mutable
    /// reference to the value; what is written through it becomes the labeled value.
    pub fn declassify_ref_mut(&mut self) -> (r: &mut T)
        ensures
            *r == old(self)@,
            final(self)@ == *final(r),
    {
        &mut self.value
    }

    /// Accessor for generated code: a reference to the value.
    pub fn __private_value(&self) -> (r: &T)
        ensures
            *r == self@,
    {
        &self.value
    }

    /// Accessor for generated code: a mutable reference to the value.
    pub fn __private_value_mut(&mut self) -> (r: &mut T)
        ensures
            *r == old(self)@,
            final(self)@ == *final(r),
    {
        &mut self.value
    }

    /// Accessor for generated code: the value itself.
    pub fn __private_into_value(self) -> (r: T)
        ensures
            r == self@,
    {
        self.value
    }
}

/// The value of the labeled container built from `value` is `value`.
pub broadcast proof fn lemma_spec_new_view<T, L: Label>(value: T)
    ensures
        (#[trigger] Labeled::<T, L>::spec_new(value))@ == value,
{
}

/// Two labeled containers with the same label are equal when their values are.
pub broadcast proof fn lemma_labeled_ext<T, L: Label>(a: Labeled<T, L>, b: Labeled<T, L>)
    requires
        #[trigger] a@ == #[trigger] b@,
    ensures
        a == b,
{
}

/// A labeled container is the one built from its value.
pub broadcast proof fn lemma_labeled_from_view<T, L: Label>(a: Labeled<T, L>)
    ensures
        Labeled::<T, L>::spec_new(#[trigger] a@) == a,
{
}

pub broadcast group group_labeled {
    lemma_spec_new_view,
    lemma_labeled_from_view,
}

impl<T, L: Label> Labeled<Option<T>, L> {
    /// Looks inside a labeled `Option` without declassifying: `Some` of a labeled
    /// reference when there is a value, `None` otherwise.
    pub fn as_option_ref(&self) -> (r: Option<Labeled<&T, L>>)
        ensures
            self@ is None ==> r is None,
            self@ matches Some(v) ==> (r matches Some(x) && *x@ == v),
    {
        match &self.value {
            Some(v) => Some(Labeled { value: v, _marker: PhantomData }),
            None => None,
        }
    }
}

impl<A, B, L: Label> Labeled<(A, B), L> {
    /// Splits a labeled pair into its two parts, each under the pair's label.
    pub fn split(self) -> (r: (Labeled<A, L>, Labeled<B, L>))
        ensures
            r.0@ == self@.0,
            r.1@ == self@.1,
    {
        let (a, b) = self.value;
        (Labeled::new(a), Labeled::new(b))
    }
}

impl<T, E, L: Label> Labeled<Result<T, E>, L> {
    /// Swaps `Labeled<Result<T, E>>` into `Result<Labeled<T>, E>`; the error leaves
    /// the label, the success value keeps it.
    pub fn transpose(self) -> (r: Result<Labeled<T, L>, E>)
        ensures
            self@ matches Ok(v) ==> (r matches Ok(x) && x@ == v),
            self@ matches Err(e) ==> r == Err::<Labeled<T, L>, E>(e),
    {
        match self.value {
            Ok(v) => Ok(Labeled::new(v)),
            Err(e) => Err(e),
        }
    }
}

impl<T: Clone, L: Label> Clone for Labeled<T, L> {
    fn clone(&self) -> (r: Self)
        ensures
            cloned::<T>(self@, r@),
    {
        Labeled { value: self.value.clone(), _marker: PhantomData }
    }
}

impl<T: Copy, L: Label> Copy for Labeled<T, L> {}

impl<T: Hash, L: Label> Hash for Labeled<T, L> {
    /// Hashes the labeled value as its inner value (std's `Hash::hash` on `T`).
    /// Trusted: nothing is claimed of the hasher's state afterwards.
    #[verifier::external_body]
    fn hash<H: Hasher>(&self, state: &mut H) {
        self.value.hash(state)
    }
}

impl<T: Default, L: Label> Default for Labeled<T, L> {
    fn default() -> (r: Self)
        ensures
            call_ensures(T::default, (), r@),
    {
        Labeled { value: T::default(), _marker: PhantomData }
    }
}

impl<T, L: Label, const N: usize> Labeled<[T; N], L> {
    /// The element at `index` of a labeled array, under the array's label.
    pub fn index(&self, index: usize) -> (r: Labeled<&T, L>)
        requires
            index < N,
        ensures
            *r@ == self@[index as int],
    {
        Labeled { value: &self.value[index], _marker: PhantomData }
    }

    /// The element at a labeled `index` of a labeled array, under the array's label.
    pub fn index_labeled<L2: Label>(&self, index: Labeled<usize, L2>) -> (r: Labeled<&T, L>)
        requires
            index@ < N,
        ensures
            *r@ == self@[index@ as int],
    {
        Labeled { value: &self.value[index.value], _marker: PhantomData }
    }

    /// Writes a labeled element at `index` of a labeled array of the same label.
    pub fn index_set(&mut self, index: usize, value: Labeled<T, L>)
        requires
            index < N,
        ensures
            final(self)@@ == old(self)@@.update(index as int, value@),
    {
        self.value[index] = value.value;
    }

    /// Writes a labeled element at a labeled `index` of a labeled array of the same label.
    pub fn index_set_labeled<L2: Label>(&mut self, index: Labeled<usize, L2>, value: Labeled<T, L>)
        requires
            index@ < N,
        ensures
            final(self)@@ == old(self)@@.update(index@ as int, value@),
    {
        self.value[index.value] = value.value;
    }
}

/// Declassification: strips the label entirely and returns the raw value.
pub fn declassify<T, L: Label>(secret: Labeled<T, L>) -> (r: T)
    ensures
        r == secret@,
{
    secret.value
}

/// Converts `Labeled<Option<T>, L>` into `Option<Labeled<T, L>>`, keeping the label
/// on the value and declassifying nothing.
pub fn labeled_transpose<T, L: Label>(lo: Labeled<Option<T>, L>) -> (r: Option<Labeled<T, L>>)
    ensures
        lo@ is None ==> r is None,
        lo@ matches Some(v) ==> (r matches Some(x) && x@ == v),
{
    match lo.value {
        Some(v) => Some(Labeled::new(v)),
        None => None,
    }
}

/// Relabels a value upwards: only compiles when `OldL` flows to `NewL`, and keeps the value.
pub fn __relabel_checked<T, OldL: Label + FlowsTo<NewL>, NewL: Label>(v: Labeled<T, OldL>) -> (r:
    Labeled<T, NewL>)
    ensures
        r@ == v@,
        level_flows(OldL::level(), NewL::level()),
{
    proof {
        <OldL as FlowsTo<NewL>>::lemma_flows_level();
    }
    Labeled { value: v.value, _marker: PhantomData }
}

/// The label of the current execution context (the program counter), used to
/// track implicit flows.
pub struct PcContext<P: Label> {
    pub _marker: PhantomData<P>,
}

impl<P: Label> Clone for PcContext<P> {
    fn clone(&self) -> (r: Self)
        ensures
            r == *self,
    {
        Self { _marker: PhantomData }
    }
}

impl<P: Label> PcContext<P> {
    /// A context at level `P`.
    pub fn new() -> (r: Self)
        ensures
            r._marker == PhantomData::<P>,
    {
        Self { _marker: PhantomData }
    }
}

/// The owned path type of std, carried through opaquely.
#[verifier::external_type_specification]
#[verifier::external_body]
pub struct ExPathBuf(std::path::PathBuf);

/// The borrowed path type of std, carried through opaquely.
#[verifier::external_type_specification]
#[verifier::external_body]
pub struct ExPath(std::path::Path);

impl<L: Label> AsRef<std::path::Path> for Labeled<std::path::PathBuf, L> {
    /// The labeled path as a std path (`PathBuf::as_path` of std), for file
    /// operations that take a path. Trusted: nothing is claimed of the result.
    #[verifier::external_body]
    fn as_ref(&self) -> &std::path::Path {
        self.value.as_path()
    }
}

} // verus!
