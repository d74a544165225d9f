//! The rewrite of a call on labeled values.
//!
//! Each argument is unwrapped through a chain entry (`__chain` for an owned value,
//! `__chain_ref` for a shared reference, `__chain_mut` for a mutable reference to a
//! path, which is then assigned back) that binds the name `__v{i}`, the entry's
//! position among all entries; the call is made on the unwrapped values and its
//! result is labeled with the join of every argument's label. An array literal or a
//! `vec![..]` whose elements read fields of paths (or, for `vec!`, are paths) gets one
//! entry per distinct base path, in order of first occurrence, and is rebuilt on the
//! unwrapped bases.
use crate::pc_policy::{chars_of, same_chars};
use vstd::prelude::*;

verus! {

// ---------------------------------------------------------------------------
// Syntax
// ---------------------------------------------------------------------------

/// An element of an array literal or of a `vec![..]` passed as an argument.
pub enum ArrayElem {
    /// `base.member` where `base` is a path whose text is `base_text`.
    FieldOfPath { base: usize, base_text: String, member: usize, whole: usize },
    /// A path whose text is `text`.
    Path { fragment: usize, text: String },
    /// Any other element.
    Other(usize),
}

/// An argument of the call.
pub enum CallArg {
    /// `&operand`
    SharedRef { operand: usize },
    /// `&mut operand`, where the operand is a path: the value is mutated in place and
    /// afterwards carries the join of every label that flowed into the call.
    MutRef { operand: usize },
    /// `[elems]`
    Array { elems: Vec<ArrayElem>, whole: usize },
    /// `vec![elems]`; no elements when its tokens do not read as a list of expressions.
    VecMacro { elems: Vec<ArrayElem>, whole: usize },
    /// Any other argument.
    Other(usize),
}

/// A field of a struct literal: its member and its value, kept as written.
#[derive(PartialEq, Eq, Structural, Clone, Copy, Debug)]
pub struct StructField {
    pub member: usize,
    pub value: usize,
}

/// The arguments of a `format!`: the format string and the values, kept as written.
pub struct FormatParts {
    pub template: usize,
    pub args: Vec<usize>,
}

/// The expression given to the call rewrite.
pub enum CallExpr {
    /// `base.await`
    Await { base: Box<CallExpr>, whole: usize },
    /// `inner?`
    Try { inner: Box<CallExpr>, whole: usize },
    /// `callee(args)`
    Call { callee: usize, args: Vec<CallArg>, whole: usize },
    /// `receiver.segment`, where the segment is a method's name, turbofish and arguments.
    MethodCall { receiver: Box<CallExpr>, segment: usize, whole: usize },
    /// `format!(..)`; `None` when its tokens do not read as a format string and values.
    Format { parts: Option<FormatParts>, whole: usize },
    /// `path { fields }`
    Struct { path: usize, fields: Vec<StructField>, whole: usize },
    /// Any other expression.
    Other(usize),
}

// ---------------------------------------------------------------------------
// The plan
// ---------------------------------------------------------------------------

/// How a chain entry unwraps its target.
#[derive(PartialEq, Eq, Structural, Clone, Copy, Debug)]
pub enum ChainKind {
    /// `(target).__chain(|__v{i}| ..)`
    Owned,
    /// `(target).__chain_ref(|__v{i}| ..)`
    Ref,
    /// `(target).__chain_mut(|__v{i}| ..)`: the target is moved in, handed to the call
    /// as `&mut`, and given back (mutated, under the joined label) beside the result;
    /// it is then assigned back to the target. In an awaited call, which has no
    /// mutating chain, `(&mut target)` is handed on as a raw value instead and nothing
    /// is assigned back.
    Mut,
}

/// A chain entry; it binds `__v{i}`, where `i` is its position in the plan.
#[derive(PartialEq, Eq, Structural, Clone, Copy, Debug)]
pub struct ChainEntry {
    pub kind: ChainKind,
    pub target: usize,
}

/// An element of a rebuilt array.
#[derive(PartialEq, Eq, Structural, Clone, Copy, Debug)]
pub enum InnerElem {
    /// `__v{var}.member`
    FieldOfVar { var: usize, member: usize },
    /// `__v{var}`
    Var(usize),
    /// The element as written.
    Kept(usize),
}

/// An argument of the inner call.
#[derive(PartialEq, Eq, Debug)]
pub enum InnerArg {
    /// `__v{var}`
    Var(usize),
    /// `[elems]`
    Array(Vec<InnerElem>),
    /// `vec![elems]`
    VecOf(Vec<InnerElem>),
}

/// What the rewrite emits.
#[derive(PartialEq, Eq, Debug)]
pub enum CallPlan {
    /// `format!`: each value is chained (`__v{i}` for the `i`-th) and the string is
    /// labeled public.
    Format { template: usize, values: Vec<usize> },
    /// A struct literal: each field's value is chained (`__v{i}` for the `i`-th) and
    /// the struct is rebuilt on the unwrapped values.
    Struct { path: usize, fields: Vec<StructField> },
    /// A call, followed by the methods of `methods` applied to its raw result, awaited
    /// when `awaited`, then labeled; with `question_mark` the labeled result is
    /// transposed and `?` applied. The chain gives back, beside the result, the
    /// targets of the mutating entries, in order, which are assigned back to the paths
    /// of `mutated`.
    Call {
        callee: usize,
        entries: Vec<ChainEntry>,
        args: Vec<InnerArg>,
        mutated: Vec<usize>,
        methods: Vec<usize>,
        awaited: bool,
        question_mark: bool,
    },
}

/// Why the rewrite refuses its input; each carries the expression to point at.
#[derive(PartialEq, Eq, Structural, Clone, Copy, Debug)]
pub enum CallError {
    /// `?` applied to something other than a call.
    ExpectsCall(usize),
    /// Neither a call nor a chain of methods on a call.
    ExpectsCallChain(usize),
    /// A `format!` whose tokens do not read as a format string and values.
    UnreadableFormat(usize),
}

// ---------------------------------------------------------------------------
// The model
// ---------------------------------------------------------------------------

/// The base path that an element reads, as its text and the path itself: a field of a
/// path, or (in `vec!`) a path.
pub open spec fn elem_key(e: ArrayElem, in_vec: bool) -> Option<(Seq<char>, usize)> {
    match e {
        ArrayElem::FieldOfPath { base, base_text, .. } => Some((base_text@, base)),
        ArrayElem::Path { fragment, text } => if in_vec {
            Some((text@, fragment))
        } else {
            None
        },
        ArrayElem::Other(_) => None,
    }
}

/// The element as written.
pub open spec fn elem_fragment(e: ArrayElem) -> usize {
    match e {
        ArrayElem::FieldOfPath { whole, .. } => whole,
        ArrayElem::Path { fragment, .. } => fragment,
        ArrayElem::Other(f) => f,
    }
}

/// The texts of a list of bases.
pub open spec fn base_keys(b: Seq<(Seq<char>, usize)>) -> Seq<Seq<char>> {
    b.map_values(|p: (Seq<char>, usize)| p.0)
}

/// The distinct base paths that the elements read, in order of first occurrence.
pub open spec fn bases_of(elems: Seq<ArrayElem>, in_vec: bool) -> Seq<(Seq<char>, usize)>
    decreases elems.len(),
{
    if elems.len() == 0 {
        Seq::empty()
    } else {
        let prev = bases_of(elems.drop_last(), in_vec);
        match elem_key(elems.last(), in_vec) {
            Some(kt) => if base_keys(prev).contains(kt.0) {
                prev
            } else {
                prev.push(kt)
            },
            None => prev,
        }
    }
}

/// The entries of an array argument: one per base, or the whole array when it reads
/// no base.
pub open spec fn elems_entries(elems: Seq<ArrayElem>, in_vec: bool, whole: usize) -> Seq<
    ChainEntry,
> {
    let b = bases_of(elems, in_vec);
    if b.len() == 0 {
        seq![ChainEntry { kind: ChainKind::Owned, target: whole }]
    } else {
        b.map_values(|p: (Seq<char>, usize)| ChainEntry { kind: ChainKind::Owned, target: p.1 })
    }
}

/// The entries of one argument.
pub open spec fn arg_entries(a: CallArg) -> Seq<ChainEntry> {
    match a {
        CallArg::SharedRef { operand } => seq![ChainEntry { kind: ChainKind::Ref, target: operand }],
        CallArg::MutRef { operand } => seq![ChainEntry { kind: ChainKind::Mut, target: operand }],
        CallArg::Array { elems, whole } => elems_entries(elems@, false, whole),
        CallArg::VecMacro { elems, whole } => elems_entries(elems@, true, whole),
        CallArg::Other(f) => seq![ChainEntry { kind: ChainKind::Owned, target: f }],
    }
}

/// The entries of all arguments, in order.
pub open spec fn entries_of(args: Seq<CallArg>) -> Seq<ChainEntry>
    decreases args.len(),
{
    if args.len() == 0 {
        Seq::empty()
    } else {
        entries_of(args.drop_last()) + arg_entries(args.last())
    }
}

/// `ie` rebuilds the element `e`, where the bases `b` are bound from `__v{offset}` on.
pub open spec fn inner_elem_ok(
    e: ArrayElem,
    ie: InnerElem,
    b: Seq<(Seq<char>, usize)>,
    offset: int,
    in_vec: bool,
) -> bool {
    match elem_key(e, in_vec) {
        Some(kt) => match e {
            ArrayElem::FieldOfPath { member, .. } => ie matches InnerElem::FieldOfVar {
                var,
                member: m2,
            } && m2 == member && offset <= var < offset + b.len() && b[var - offset].0 == kt.0,
            _ => ie matches InnerElem::Var(var) && offset <= var < offset + b.len() && b[var
                - offset].0 == kt.0,
        },
        None => ie == InnerElem::Kept(elem_fragment(e)),
    }
}

/// `v` rebuilds each of `elems`, whose bases are bound from `__v{offset}` on.
pub open spec fn elems_rebuilt(elems: Seq<ArrayElem>, v: Seq<InnerElem>, offset: int, in_vec: bool) -> bool {
    v.len() == elems.len() && forall|j: int|
        0 <= j < elems.len() ==> inner_elem_ok(
            #[trigger] elems[j],
            v[j],
            bases_of(elems, in_vec),
            offset,
            in_vec,
        )
}

/// `ia` is what the inner call receives for `a`, whose entries start at `offset`.
pub open spec fn inner_arg_ok(a: CallArg, ia: InnerArg, offset: int) -> bool {
    match a {
        CallArg::Array { elems, .. } => if bases_of(elems@, false).len() == 0 {
            ia matches InnerArg::Var(v) && v == offset
        } else {
            ia matches InnerArg::Array(v) && elems_rebuilt(elems@, v@, offset, false)
        },
        CallArg::VecMacro { elems, .. } => if bases_of(elems@, true).len() == 0 {
            ia matches InnerArg::Var(v) && v == offset
        } else {
            ia matches InnerArg::VecOf(v) && elems_rebuilt(elems@, v@, offset, true)
        },
        _ => ia matches InnerArg::Var(v) && v == offset,
    }
}

/// `inner` is what the inner call receives for each of `args`.
pub open spec fn inner_args_ok(args: Seq<CallArg>, inner: Seq<InnerArg>) -> bool {
    inner.len() == args.len() && forall|i: int|
        0 <= i < args.len() ==> inner_arg_ok(
            #[trigger] args[i],
            inner[i],
            entries_of(args.take(i)).len() as int,
        )
}

// ---------------------------------------------------------------------------
// Facts about bases
// ---------------------------------------------------------------------------

/// The bases of a prefix of the elements are a prefix of the bases of all of them.
pub proof fn lemma_bases_prefix(elems: Seq<ArrayElem>, in_vec: bool, n: int)
    requires
        0 <= n <= elems.len(),
    ensures
        bases_of(elems.take(n), in_vec).len() <= bases_of(elems, in_vec).len(),
        forall|k: int|
            0 <= k < bases_of(elems.take(n), in_vec).len() ==> #[trigger] bases_of(
                elems.take(n),
                in_vec,
            )[k] == bases_of(elems, in_vec)[k],
    decreases elems.len(),
{
    if n == elems.len() {
        assert(elems.take(n) =~= elems);
    } else {
        let shorter = elems.drop_last();
        assert(elems.take(n) =~= shorter.take(n));
        lemma_bases_prefix(shorter, in_vec, n);
    }
}

/// No base path is bound twice.
pub proof fn lemma_bases_distinct(elems: Seq<ArrayElem>, in_vec: bool)
    ensures
        base_keys(bases_of(elems, in_vec)).no_duplicates(),
    decreases elems.len(),
{
    if elems.len() > 0 {
        let prev = bases_of(elems.drop_last(), in_vec);
        lemma_bases_distinct(elems.drop_last(), in_vec);
        match elem_key(elems.last(), in_vec) {
            Some(kt) => {
                if !base_keys(prev).contains(kt.0) {
                    assert(base_keys(prev.push(kt)) =~= base_keys(prev).push(kt.0));
                }
            },
            None => {},
        }
    }
}

/// Every base path that an element reads is bound.
pub proof fn lemma_bases_complete(elems: Seq<ArrayElem>, in_vec: bool, j: int)
    requires
        0 <= j < elems.len(),
        elem_key(elems[j], in_vec) is Some,
    ensures
        base_keys(bases_of(elems, in_vec)).contains((elem_key(elems[j], in_vec)->0).0),
{
    let kt = elem_key(elems[j], in_vec)->0;
    let upto = elems.take(j + 1);
    assert(upto.drop_last() =~= elems.take(j));
    assert(upto.last() == elems[j]);
    let prev = bases_of(upto.drop_last(), in_vec);
    let here = bases_of(upto, in_vec);
    let idx: int = if base_keys(prev).contains(kt.0) {
        choose|i: int| 0 <= i < base_keys(prev).len() && base_keys(prev)[i] == kt.0
    } else {
        prev.len() as int
    };
    assert(0 <= idx < here.len() && here[idx].0 == kt.0);
    lemma_bases_prefix(elems, in_vec, j + 1);
    let all = bases_of(elems, in_vec);
    assert(all[idx] == here[idx]);
    assert(base_keys(all)[idx] == kt.0);
}

// ---------------------------------------------------------------------------
// Planning, executed
// ---------------------------------------------------------------------------

/// `keys` and `targets` spell out the bases `b`.
pub open spec fn bases_held(keys: Seq<Vec<char>>, targets: Seq<usize>, b: Seq<(Seq<char>, usize)>) -> bool {
    keys.len() == b.len() && targets.len() == b.len() && forall|k: int|
        0 <= k < b.len() ==> keys[k]@ == (#[trigger] b[k]).0 && targets[k] == b[k].1
}

fn elem_key_of(e: &ArrayElem, in_vec: bool) -> (r: Option<(Vec<char>, usize)>)
    ensures
        match elem_key(*e, in_vec) {
            None => r is None,
            Some(kt) => r matches Some(p) && p.0@ == kt.0 && p.1 == kt.1,
        },
{
    match e {
        ArrayElem::FieldOfPath { base, base_text, .. } => Some((chars_of(base_text.as_str()), *base)),
        ArrayElem::Path { fragment, text } => if in_vec {
            Some((chars_of(text.as_str()), *fragment))
        } else {
            None
        },
        ArrayElem::Other(_) => None,
    }
}

fn position_of(keys: &Vec<Vec<char>>, key: &Vec<char>) -> (r: Option<usize>)
    ensures
        match r {
            Some(j) => j < keys@.len() && keys@[j as int]@ == key@,
            None => forall|k: int| 0 <= k < keys@.len() ==> (#[trigger] keys@[k])@ != key@,
        },
{
    let mut i: usize = 0;
    while i < keys.len()
        invariant
            i <= keys@.len(),
            forall|k: int| 0 <= k < i ==> (#[trigger] keys@[k])@ != key@,
        decreases keys@.len() - i,
    {
        if same_chars(&keys[i], key) {
            return Some(i);
        }
        i = i + 1;
    }
    None
}

/// The distinct base paths that the elements read, in order of first occurrence.
fn collect_bases(elems: &Vec<ArrayElem>, in_vec: bool) -> (r: (Vec<Vec<char>>, Vec<usize>))
    ensures
        bases_held(r.0@, r.1@, bases_of(elems@, in_vec)),
{
    let mut keys: Vec<Vec<char>> = Vec::new();
    let mut targets: Vec<usize> = Vec::new();
    let mut i: usize = 0;
    while i < elems.len()
        invariant
            i <= elems@.len(),
            bases_held(keys@, targets@, bases_of(elems@.take(i as int), in_vec)),
        decreases elems@.len() - i,
    {
        let ghost prev = bases_of(elems@.take(i as int), in_vec);
        proof {
            let upto = elems@.take(i + 1);
            assert(upto.drop_last() =~= elems@.take(i as int));
            assert(upto.last() == elems@[i as int]);
        }
        match elem_key_of(&elems[i], in_vec) {
            Some(kt) => {
                let pos = position_of(&keys, &kt.0);
                match pos {
                    Some(j) => {
                        proof {
                            assert(base_keys(prev)[j as int] == kt.0@);
                        }
                    },
                    None => {
                        proof {
                            assert(!base_keys(prev).contains(kt.0@)) by {
                                if base_keys(prev).contains(kt.0@) {
                                    let k = choose|k: int|
                                        0 <= k < base_keys(prev).len() && base_keys(prev)[k]
                                            == kt.0@;
                                    assert(keys@[k]@ == kt.0@);
                                }
                            }
                        }
                        let (key, target) = kt;
                        keys.push(key);
                        targets.push(target);
                    },
                }
            },
            None => {},
        }
        i = i + 1;
    }
    proof {
        assert(elems@.take(elems@.len() as int) =~= elems@);
    }
    (keys, targets)
}

/// Rebuilds the elements on the bases bound from `__v{offset}` on.
fn rebuild_elems(
    elems: &Vec<ArrayElem>,
    in_vec: bool,
    keys: &Vec<Vec<char>>,
    targets: &Vec<usize>,
    offset: usize,
) -> (v: Vec<InnerElem>)
    requires
        bases_held(keys@, targets@, bases_of(elems@, in_vec)),
        offset + keys@.len() <= usize::MAX,
    ensures
        elems_rebuilt(elems@, v@, offset as int, in_vec),
{
    let ghost b = bases_of(elems@, in_vec);
    let mut v: Vec<InnerElem> = Vec::new();
    let mut j: usize = 0;
    while j < elems.len()
        invariant
            j <= elems@.len(),
            v@.len() == j,
            b == bases_of(elems@, in_vec),
            bases_held(keys@, targets@, b),
            offset + keys@.len() <= usize::MAX,
            forall|k: int|
                0 <= k < j ==> inner_elem_ok(#[trigger] elems@[k], v@[k], b, offset as int, in_vec),
        decreases elems@.len() - j,
    {
        let elem = &elems[j];
        let ie = match elem_key_of(elem, in_vec) {
            Some(kt) => {
                proof {
                    lemma_bases_complete(elems@, in_vec, j as int);
                    let k = choose|k: int| 0 <= k < base_keys(b).len() && base_keys(b)[k] == kt.0@;
                    assert(keys@[k]@ == kt.0@);
                }
                match position_of(keys, &kt.0) {
                    Some(p) => {
                        let var = offset + p;
                        match elem {
                            ArrayElem::FieldOfPath { member, .. } => InnerElem::FieldOfVar {
                                var,
                                member: *member,
                            },
                            _ => InnerElem::Var(var),
                        }
                    },
                    None => InnerElem::Kept(0),
                }
            },
            None => match elem {
                ArrayElem::FieldOfPath { whole, .. } => InnerElem::Kept(*whole),
                ArrayElem::Path { fragment, .. } => InnerElem::Kept(*fragment),
                ArrayElem::Other(f) => InnerElem::Kept(*f),
            },
        };
        v.push(ie);
        j = j + 1;
    }
    v
}

/// Pushes one owned entry per target.
fn push_owned(entries: &mut Vec<ChainEntry>, targets: &Vec<usize>)
    ensures
        final(entries)@ == old(entries)@ + targets@.map_values(
            |t: usize| ChainEntry { kind: ChainKind::Owned, target: t },
        ),
{
    let ghost start = entries@;
    let mut k: usize = 0;
    while k < targets.len()
        invariant
            k <= targets@.len(),
            entries@ == start + targets@.take(k as int).map_values(
                |t: usize| ChainEntry { kind: ChainKind::Owned, target: t },
            ),
        decreases targets@.len() - k,
    {
        entries.push(ChainEntry { kind: ChainKind::Owned, target: targets[k] });
        proof {
            assert(targets@.take(k + 1) =~= targets@.take(k as int).push(targets@[k as int]));
        }
        k = k + 1;
    }
    proof {
        assert(targets@.take(targets@.len() as int) =~= targets@);
    }
}

/// Plans an array-like argument whose entries start at `entries@.len()`.
fn plan_elems(
    entries: &mut Vec<ChainEntry>,
    elems: &Vec<ArrayElem>,
    in_vec: bool,
    whole: usize,
) -> (ia: InnerArg)
    ensures
        final(entries)@ == old(entries)@ + elems_entries(elems@, in_vec, whole),
        if bases_of(elems@, in_vec).len() == 0 {
            ia matches InnerArg::Var(v) && v == old(entries)@.len()
        } else if in_vec {
            ia matches InnerArg::VecOf(v) && elems_rebuilt(elems@, v@, old(entries)@.len() as int, true)
        } else {
            ia matches InnerArg::Array(v) && elems_rebuilt(elems@, v@, old(entries)@.len() as int, false)
        },
{
    let offset = entries.len();
    let (keys, targets) = collect_bases(elems, in_vec);
    let ghost b = bases_of(elems@, in_vec);
    if keys.len() == 0 {
        entries.push(ChainEntry { kind: ChainKind::Owned, target: whole });
        InnerArg::Var(offset)
    } else {
        push_owned(entries, &targets);
        let total = entries.len();
        proof {
            assert(total == offset + keys@.len());
            assert(targets@.map_values(|t: usize| ChainEntry { kind: ChainKind::Owned, target: t })
                =~= b.map_values(
                |p: (Seq<char>, usize)| ChainEntry { kind: ChainKind::Owned, target: p.1 },
            ));
        }
        let v = rebuild_elems(elems, in_vec, &keys, &targets, offset);
        if in_vec {
            InnerArg::VecOf(v)
        } else {
            InnerArg::Array(v)
        }
    }
}

/// Plans one argument, whose entries start at `entries@.len()`.
fn plan_arg(entries: &mut Vec<ChainEntry>, arg: &CallArg) -> (ia: InnerArg)
    ensures
        final(entries)@ == old(entries)@ + arg_entries(*arg),
        inner_arg_ok(*arg, ia, old(entries)@.len() as int),
{
    let offset = entries.len();
    match arg {
        CallArg::SharedRef { operand } => {
            entries.push(ChainEntry { kind: ChainKind::Ref, target: *operand });
            InnerArg::Var(offset)
        },
        CallArg::MutRef { operand } => {
            entries.push(ChainEntry { kind: ChainKind::Mut, target: *operand });
            InnerArg::Var(offset)
        },
        CallArg::Array { elems, whole } => plan_elems(entries, elems, false, *whole),
        CallArg::VecMacro { elems, whole } => plan_elems(entries, elems, true, *whole),
        CallArg::Other(f) => {
            entries.push(ChainEntry { kind: ChainKind::Owned, target: *f });
            InnerArg::Var(offset)
        },
    }
}

/// The chain entries and the inner call's arguments for the arguments of a call.
pub fn plan_args(args: &Vec<CallArg>) -> (r: (Vec<ChainEntry>, Vec<InnerArg>))
    ensures
        r.0@ == entries_of(args@),
        inner_args_ok(args@, r.1@),
{
    let mut entries: Vec<ChainEntry> = Vec::new();
    let mut inner: Vec<InnerArg> = Vec::new();
    let mut i: usize = 0;
    proof {
        assert(args@.take(0) =~= Seq::<CallArg>::empty());
    }
    while i < args.len()
        invariant
            i <= args@.len(),
            entries@ == entries_of(args@.take(i as int)),
            inner@.len() == i,
            forall|k: int|
                0 <= k < i ==> inner_arg_ok(
                    #[trigger] args@[k],
                    inner@[k],
                    entries_of(args@.take(k)).len() as int,
                ),
        decreases args@.len() - i,
    {
        proof {
            let upto = args@.take(i + 1);
            assert(upto.drop_last() =~= args@.take(i as int));
            assert(upto.last() == args@[i as int]);
        }
        let ia = plan_arg(&mut entries, &args[i]);
        inner.push(ia);
        i = i + 1;
    }
    proof {
        assert(args@.take(args@.len() as int) =~= args@);
        assert(inner_args_ok(args@, inner@));
    }
    (entries, inner)
}

// ---------------------------------------------------------------------------
// The whole rewrite
// ---------------------------------------------------------------------------

/// The expression as written.
pub open spec fn whole_of(e: CallExpr) -> usize {
    match e {
        CallExpr::Await { whole, .. } => whole,
        CallExpr::Try { whole, .. } => whole,
        CallExpr::Call { whole, .. } => whole,
        CallExpr::MethodCall { whole, .. } => whole,
        CallExpr::Format { whole, .. } => whole,
        CallExpr::Struct { whole, .. } => whole,
        CallExpr::Other(f) => f,
    }
}

/// The receiver at the bottom of a chain of method calls.
pub open spec fn chain_base(e: CallExpr) -> CallExpr
    decreases e,
{
    match e {
        CallExpr::MethodCall { receiver, .. } => chain_base(*receiver),
        _ => e,
    }
}

/// The methods of a chain of method calls, innermost first.
pub open spec fn chain_methods(e: CallExpr) -> Seq<usize>
    decreases e,
{
    match e {
        CallExpr::MethodCall { receiver, segment, .. } => chain_methods(*receiver).push(segment),
        _ => Seq::empty(),
    }
}

/// The targets of the mutating entries, in order.
pub open spec fn mutated_targets(entries: Seq<ChainEntry>) -> Seq<usize>
    decreases entries.len(),
{
    if entries.len() == 0 {
        Seq::empty()
    } else {
        let prev = mutated_targets(entries.drop_last());
        if entries.last().kind == ChainKind::Mut {
            prev.push(entries.last().target)
        } else {
            prev
        }
    }
}

/// `r` plans the call of `callee` on `args`, followed by `methods`: the mutated
/// targets are assigned back, except in an awaited call, which lends them.
pub open spec fn call_planned(
    r: Result<CallPlan, CallError>,
    callee: usize,
    args: Seq<CallArg>,
    methods: Seq<usize>,
    awaited: bool,
    question_mark: bool,
) -> bool {
    r matches Ok(
        CallPlan::Call {
            callee: c2,
            entries,
            args: inner,
            mutated,
            methods: m2,
            awaited: a2,
            question_mark: q2,
        },
    ) && c2 == callee && entries@ == entries_of(args) && inner_args_ok(args, inner@)
        && mutated@ == (if awaited {
        Seq::<usize>::empty()
    } else {
        mutated_targets(entries@)
    }) && m2@ == methods && a2 == awaited && q2 == question_mark
}

/// What the rewrite gives for `e`: a trailing `.await` is noted and removed; then a
/// `format!` and a struct literal have their own plans, `?` must follow a call, and
/// anything else must be a call followed by a chain of methods.
pub open spec fn fcall_result(e: CallExpr, r: Result<CallPlan, CallError>) -> bool {
    let awaited = e is Await;
    let body = match e {
        CallExpr::Await { base, .. } => *base,
        _ => e,
    };
    match body {
        CallExpr::Format { parts, whole } => match parts {
            None => r == Err::<CallPlan, CallError>(CallError::UnreadableFormat(whole)),
            Some(p) => r matches Ok(CallPlan::Format { template, values }) && template
                == p.template && values@ == p.args@,
        },
        CallExpr::Struct { path, fields, .. } => r matches Ok(
            CallPlan::Struct { path: p2, fields: f2 },
        ) && p2 == path && f2@ == fields@,
        CallExpr::Try { inner, .. } => match *inner {
            CallExpr::Call { callee, args, .. } => call_planned(
                r,
                callee,
                args@,
                Seq::empty(),
                awaited,
                true,
            ),
            other => r == Err::<CallPlan, CallError>(CallError::ExpectsCall(whole_of(other))),
        },
        _ => match chain_base(body) {
            CallExpr::Call { callee, args, .. } => call_planned(
                r,
                callee,
                args@,
                chain_methods(body),
                awaited,
                false,
            ),
            base => r == Err::<CallPlan, CallError>(CallError::ExpectsCallChain(whole_of(base))),
        },
    }
}

fn fragment_of(e: &CallExpr) -> (f: usize)
    ensures
        f == whole_of(*e),
{
    match e {
        CallExpr::Await { whole, .. } => *whole,
        CallExpr::Try { whole, .. } => *whole,
        CallExpr::Call { whole, .. } => *whole,
        CallExpr::MethodCall { whole, .. } => *whole,
        CallExpr::Format { whole, .. } => *whole,
        CallExpr::Struct { whole, .. } => *whole,
        CallExpr::Other(f) => *f,
    }
}

/// Splits a chain of method calls into its base and its methods, innermost first.
fn peel(e: CallExpr) -> (r: (CallExpr, Vec<usize>))
    ensures
        r.0 == chain_base(e),
        r.1@ == chain_methods(e),
    decreases e,
{
    match e {
        CallExpr::MethodCall { receiver, segment, .. } => {
            let (base, mut methods) = peel(*receiver);
            methods.push(segment);
            (base, methods)
        },
        other => (other, Vec::new()),
    }
}

/// The targets of the mutating entries, in order.
fn collect_mutated(entries: &Vec<ChainEntry>) -> (r: Vec<usize>)
    ensures
        r@ == mutated_targets(entries@),
{
    let mut out: Vec<usize> = Vec::new();
    let mut i: usize = 0;
    while i < entries.len()
        invariant
            i <= entries@.len(),
            out@ == mutated_targets(entries@.take(i as int)),
        decreases entries@.len() - i,
    {
        proof {
            assert(entries@.take(i + 1).drop_last() =~= entries@.take(i as int));
        }
        let entry = entries[i];
        if entry.kind == ChainKind::Mut {
            out.push(entry.target);
        }
        i = i + 1;
    }
    proof {
        assert(entries@.take(entries@.len() as int) =~= entries@);
    }
    out
}

fn plan_call(
    callee: usize,
    args: &Vec<CallArg>,
    methods: Vec<usize>,
    awaited: bool,
    question_mark: bool,
) -> (r: Result<CallPlan, CallError>)
    ensures
        call_planned(r, callee, args@, methods@, awaited, question_mark),
{
    let (entries, inner) = plan_args(args);
    let mutated = if awaited {
        Vec::new()
    } else {
        collect_mutated(&entries)
    };
    Ok(CallPlan::Call { callee, entries, args: inner, mutated, methods, awaited, question_mark })
}

/// Rewrites a call on labeled values.
pub fn fcall(e: CallExpr) -> (r: Result<CallPlan, CallError>)
    ensures
        fcall_result(e, r),
{
    let (awaited, body) = match e {
        CallExpr::Await { base, .. } => (true, *base),
        other => (false, other),
    };
    match body {
        CallExpr::Format { parts, whole } => match parts {
            None => Err(CallError::UnreadableFormat(whole)),
            Some(p) => Ok(CallPlan::Format { template: p.template, values: p.args }),
        },
        CallExpr::Struct { path, fields, .. } => Ok(CallPlan::Struct { path, fields }),
        CallExpr::Try { inner, .. } => match *inner {
            CallExpr::Call { callee, args, .. } => plan_call(
                callee,
                &args,
                Vec::new(),
                awaited,
                true,
            ),
            other => Err(CallError::ExpectsCall(fragment_of(&other))),
        },
        other => {
            let (base, methods) = peel(other);
            match base {
                CallExpr::Call { callee, args, .. } => plan_call(
                    callee,
                    &args,
                    methods,
                    awaited,
                    false,
                ),
                base => Err(CallError::ExpectsCallChain(fragment_of(&base))),
            }
        },
    }
}

// ---------------------------------------------------------------------------
// Every name that the inner call reads is bound
// ---------------------------------------------------------------------------

/// The names that a rebuilt element reads are below `__v{n}`.
pub open spec fn elem_reads_below(ie: InnerElem, n: int) -> bool {
    match ie {
        InnerElem::FieldOfVar { var, .. } => var < n,
        InnerElem::Var(var) => var < n,
        InnerElem::Kept(_) => true,
    }
}

/// The names that an inner argument reads are below `__v{n}`.
pub open spec fn arg_reads_below(ia: InnerArg, n: int) -> bool {
    match ia {
        InnerArg::Var(var) => var < n,
        InnerArg::Array(v) => forall|j: int| 0 <= j < v@.len() ==> elem_reads_below(#[trigger] v@[j], n),
        InnerArg::VecOf(v) => forall|j: int| 0 <= j < v@.len() ==> elem_reads_below(#[trigger] v@[j], n),
    }
}

/// The entries of a prefix of the arguments are a prefix of all the entries.
proof fn lemma_entries_prefix_len(args: Seq<CallArg>, n: int)
    requires
        0 <= n <= args.len(),
    ensures
        entries_of(args.take(n)).len() <= entries_of(args).len(),
    decreases args.len(),
{
    if n < args.len() {
        let shorter = args.drop_last();
        assert(args.take(n) =~= shorter.take(n));
        lemma_entries_prefix_len(shorter, n);
    } else {
        assert(args.take(n) =~= args);
    }
}

/// An argument's inner value reads only the names that its own entries bind.
proof fn lemma_arg_reads_own_entries(a: CallArg, ia: InnerArg, offset: int)
    requires
        inner_arg_ok(a, ia, offset),
    ensures
        arg_reads_below(ia, offset + arg_entries(a).len()),
{
    match a {
        CallArg::Array { elems, .. } => {
            let b = bases_of(elems@, false);
            if b.len() > 0 {
                let v = ia->Array_0;
                assert forall|j: int| 0 <= j < v@.len() implies elem_reads_below(
                    #[trigger] v@[j],
                    offset + arg_entries(a).len(),
                ) by {
                    assert(inner_elem_ok(elems@[j], v@[j], b, offset, false));
                }
            }
        },
        CallArg::VecMacro { elems, .. } => {
            let b = bases_of(elems@, true);
            if b.len() > 0 {
                let v = ia->VecOf_0;
                assert forall|j: int| 0 <= j < v@.len() implies elem_reads_below(
                    #[trigger] v@[j],
                    offset + arg_entries(a).len(),
                ) by {
                    assert(inner_elem_ok(elems@[j], v@[j], b, offset, true));
                }
            }
        },
        _ => {},
    }
}

/// Every name `__v{i}` that the rewritten call reads is bound by one of its chain
/// entries.
#[verifier::spinoff_prover]
pub proof fn lemma_call_reads_bound_names(args: Seq<CallArg>, inner: Seq<InnerArg>)
    requires
        inner_args_ok(args, inner),
    ensures
        forall|i: int|
            0 <= i < inner.len() ==> arg_reads_below(#[trigger] inner[i], entries_of(args).len() as int),
{
    assert forall|i: int| 0 <= i < inner.len() implies arg_reads_below(
        #[trigger] inner[i],
        entries_of(args).len() as int,
    ) by {
        let offset = entries_of(args.take(i)).len() as int;
        assert(inner_arg_ok(args[i], inner[i], offset));
        lemma_arg_reads_own_entries(args[i], inner[i], offset);
        let upto = args.take(i + 1);
        assert(upto.drop_last() =~= args.take(i));
        assert(entries_of(upto).len() == offset + arg_entries(args[i]).len());
        lemma_entries_prefix_len(args, i + 1);
        let n1 = offset + arg_entries(args[i]).len();
        let n2 = entries_of(args).len() as int;
        match inner[i] {
            InnerArg::Array(v) => {
                assert forall|j: int| 0 <= j < v@.len() implies elem_reads_below(#[trigger] v@[j], n2) by {
                    assert(elem_reads_below(v@[j], n1));
                }
            },
            InnerArg::VecOf(v) => {
                assert forall|j: int| 0 <= j < v@.len() implies elem_reads_below(#[trigger] v@[j], n2) by {
                    assert(elem_reads_below(v@[j], n1));
                }
            },
            _ => {},
        }
    }
}

// ---------------------------------------------------------------------------
// Every bound name is read
// ---------------------------------------------------------------------------

/// A rebuilt element reads `__v{var}`.
pub open spec fn elem_reads(ie: InnerElem, var: int) -> bool {
    match ie {
        InnerElem::FieldOfVar { var: v, .. } => v == var,
        InnerElem::Var(v) => v == var,
        InnerElem::Kept(_) => false,
    }
}

/// An inner argument reads `__v{var}`.
pub open spec fn arg_reads(ia: InnerArg, var: int) -> bool {
    match ia {
        InnerArg::Var(v) => v == var,
        InnerArg::Array(v) => exists|j: int| 0 <= j < v@.len() && elem_reads(#[trigger] v@[j], var),
        InnerArg::VecOf(v) => exists|j: int| 0 <= j < v@.len() && elem_reads(#[trigger] v@[j], var),
    }
}

/// Every base comes from an element that reads it.
proof fn lemma_bases_sound(elems: Seq<ArrayElem>, in_vec: bool, k: int)
    requires
        0 <= k < bases_of(elems, in_vec).len(),
    ensures
        exists|j: int|
            0 <= j < elems.len() && elem_key(#[trigger] elems[j], in_vec) == Some(
                bases_of(elems, in_vec)[k],
            ),
    decreases elems.len(),
{
    let prev = bases_of(elems.drop_last(), in_vec);
    if k < prev.len() {
        lemma_bases_sound(elems.drop_last(), in_vec, k);
        let j = choose|j: int|
            0 <= j < elems.drop_last().len() && elem_key(#[trigger] elems.drop_last()[j], in_vec)
                == Some(prev[k]);
        assert(elems[j] == elems.drop_last()[j]);
    } else {
        assert(elem_key(elems[elems.len() - 1], in_vec) == Some(bases_of(elems, in_vec)[k]));
    }
}

/// Each base of an array argument is read by the rebuilt array.
proof fn lemma_rebuilt_reads_each_base(
    elems: Seq<ArrayElem>,
    in_vec: bool,
    v: Seq<InnerElem>,
    offset: int,
    k: int,
)
    requires
        elems_rebuilt(elems, v, offset, in_vec),
        0 <= k < bases_of(elems, in_vec).len(),
    ensures
        exists|j: int| 0 <= j < v.len() && elem_reads(#[trigger] v[j], offset + k),
{
    let b = bases_of(elems, in_vec);
    lemma_bases_sound(elems, in_vec, k);
    let j = choose|j: int| 0 <= j < elems.len() && elem_key(#[trigger] elems[j], in_vec) == Some(b[k]);
    lemma_bases_distinct(elems, in_vec);
    assert(inner_elem_ok(elems[j], v[j], b, offset, in_vec));
    let var: int = match v[j] {
        InnerElem::FieldOfVar { var, .. } => var as int,
        InnerElem::Var(var) => var as int,
        InnerElem::Kept(_) => 0,
    };
    assert(base_keys(b)[var - offset] == base_keys(b)[k]);
    assert(var - offset == k);
    assert(elem_reads(v[j], offset + k));
}

/// Each entry of an argument is read by the argument's inner value.
proof fn lemma_arg_reads_each_entry(a: CallArg, ia: InnerArg, offset: int, k: int)
    requires
        inner_arg_ok(a, ia, offset),
        0 <= k < arg_entries(a).len(),
    ensures
        arg_reads(ia, offset + k),
{
    match a {
        CallArg::Array { elems, .. } => {
            if bases_of(elems@, false).len() > 0 {
                lemma_rebuilt_reads_each_base(elems@, false, ia->Array_0@, offset, k);
            }
        },
        CallArg::VecMacro { elems, .. } => {
            if bases_of(elems@, true).len() > 0 {
                lemma_rebuilt_reads_each_base(elems@, true, ia->VecOf_0@, offset, k);
            }
        },
        _ => {},
    }
}

/// Where the entries of the argument at `i` start.
pub open spec fn entry_offset(args: Seq<CallArg>, i: int) -> int {
    entries_of(args.take(i)).len() as int
}

/// Every entry belongs to one argument: the one whose entries start at or before it
/// and end after it.
proof fn lemma_entry_owner(args: Seq<CallArg>, g: int)
    requires
        0 <= g < entries_of(args).len(),
    ensures
        exists|i: int|
            0 <= i < args.len() && entry_offset(args, i) <= g < entry_offset(args, i)
                + arg_entries(#[trigger] args[i]).len(),
    decreases args.len(),
{
    let shorter = args.drop_last();
    let last = args.len() - 1;
    assert(args.take(last) =~= shorter);
    if g < entries_of(shorter).len() {
        lemma_entry_owner(shorter, g);
        let i = choose|i: int|
            0 <= i < shorter.len() && entry_offset(shorter, i) <= g < entry_offset(shorter, i)
                + arg_entries(#[trigger] shorter[i]).len();
        assert(shorter.take(i) =~= args.take(i));
        assert(shorter[i] == args[i]);
    } else {
        assert(entry_offset(args, last) == entries_of(shorter).len());
        assert(args[last] == args.last());
    }
}

/// Every name `__v{g}` that a chain entry binds is read by the rewritten call: no
/// argument is unwrapped for nothing.
#[verifier::spinoff_prover]
pub proof fn lemma_call_reads_every_entry(args: Seq<CallArg>, inner: Seq<InnerArg>, g: int)
    requires
        inner_args_ok(args, inner),
        0 <= g < entries_of(args).len(),
    ensures
        exists|i: int| 0 <= i < inner.len() && arg_reads(#[trigger] inner[i], g),
{
    lemma_entry_owner(args, g);
    let i = choose|i: int|
        0 <= i < args.len() && entry_offset(args, i) <= g < entry_offset(args, i) + arg_entries(
            #[trigger] args[i],
        ).len();
    assert(inner_arg_ok(args[i], inner[i], entry_offset(args, i)));
    lemma_arg_reads_each_entry(args[i], inner[i], entry_offset(args, i), g - entry_offset(args, i));
    assert(arg_reads(inner[i], g));
}

// ---------------------------------------------------------------------------
// A struct literal keeps each field's value
// ---------------------------------------------------------------------------

/// A struct literal given to the call rewrite is rebuilt with each field holding
/// the value written for it: the plan has the written fields in the written order,
/// and the `k`-th pairs the `k`-th member with the `k`-th value.
pub proof fn lemma_struct_fields_keep_their_values(
    path: usize,
    fields: Vec<StructField>,
    whole: usize,
    r: Result<CallPlan, CallError>,
)
    requires
        fcall_result(CallExpr::Struct { path, fields, whole }, r),
    ensures
        r matches Ok(CallPlan::Struct { path: p2, fields: planned }) && p2 == path
            && planned@.len() == fields@.len() && forall|k: int|
            0 <= k < fields@.len() ==> (#[trigger] planned@[k]).member == fields@[k].member
                && planned@[k].value == fields@[k].value,
{
}

} // verus!
