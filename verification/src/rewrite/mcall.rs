//! The rewrite of a method call or a field read on a labeled value.
//!
//! The result keeps the receiver's label, joined with the labels of the last
//! method's arguments; a field read keeps the receiver's label as it is.
use vstd::prelude::*;

verus! {

// ---------------------------------------------------------------------------
// Syntax
// ---------------------------------------------------------------------------

/// An argument of a method call, kept as written.
#[derive(PartialEq, Eq, Structural, Clone, Copy, Debug)]
pub struct MethodArg {
    pub fragment: usize,
    /// Whether the argument is a reference (`&x` or `&mut x`).
    pub is_reference: bool,
}

/// The expression given to the method rewrite.
pub enum MethodExpr {
    /// `inner.await`
    Await { inner: Box<MethodExpr>, whole: usize },
    /// `inner?`
    Try { inner: Box<MethodExpr>, whole: usize },
    /// `receiver.method(args)`, where `method` holds the name and turbofish and
    /// `segment` holds the name, turbofish and arguments.
    MethodCall {
        receiver: Box<MethodExpr>,
        receiver_fragment: usize,
        method: usize,
        args: Vec<MethodArg>,
        segment: usize,
        whole: usize,
    },
    /// `base.member`
    Field { base: usize, member: usize, whole: usize },
    /// Any other expression.
    Other(usize),
}

// ---------------------------------------------------------------------------
// The plan
// ---------------------------------------------------------------------------

/// An argument of an awaited method call.
#[derive(PartialEq, Eq, Structural, Clone, Copy, Debug)]
pub enum AwaitArg {
    /// A reference, passed as written.
    Passed(usize),
    /// Any other argument: unwrapped into `__mv{index}` before the call.
    Extracted { index: usize, value: usize },
}

/// What the rewrite emits.
#[derive(PartialEq, Eq, Debug)]
pub enum MethodPlan {
    /// `receiver.method(args).await` on the receiver's inner value; `chained` when
    /// some argument is unwrapped.
    Awaited { receiver: usize, method: usize, passed: Vec<AwaitArg>, chained: bool },
    /// `base.m1(..)...mk(..)?`: the methods run on the base's inner value, the label
    /// is kept, and the error is propagated.
    Fallible { base: usize, segments: Vec<usize> },
    /// `base.m1(..)...method(args)`: the base is borrowed through `__chain_ref`, the
    /// intermediate methods run on it as written, and each of the last method's
    /// arguments is chained (`__av{i}` for the `i`-th).
    Method { base: usize, intermediates: Vec<usize>, method: usize, args: Vec<usize> },
    /// `base.member`, read under the base's label.
    Field { base: usize, member: usize },
}

/// Why the rewrite refuses its input; each carries the expression to point at.
#[derive(PartialEq, Eq, Structural, Clone, Copy, Debug)]
pub enum MethodError {
    /// `.await` on something other than a method call.
    ExpectsAwaitedMethodCall(usize),
    /// `?` on something other than a method call.
    ExpectsFallibleMethodCall(usize),
    /// Neither a method call nor a field read.
    ExpectsMethodOrField(usize),
}

// ---------------------------------------------------------------------------
// The model
// ---------------------------------------------------------------------------

/// The expression as written.
pub open spec fn method_whole(e: MethodExpr) -> usize {
    match e {
        MethodExpr::Await { whole, .. } => whole,
        MethodExpr::Try { whole, .. } => whole,
        MethodExpr::MethodCall { whole, .. } => whole,
        MethodExpr::Field { whole, .. } => whole,
        MethodExpr::Other(f) => f,
    }
}

/// The receiver at the bottom of a chain of method calls.
pub open spec fn receiver_base(e: MethodExpr) -> MethodExpr
    decreases e,
{
    match e {
        MethodExpr::MethodCall { receiver, .. } => receiver_base(*receiver),
        _ => e,
    }
}

/// The methods of a chain of method calls, innermost first.
pub open spec fn segments_of(e: MethodExpr) -> Seq<usize>
    decreases e,
{
    match e {
        MethodExpr::MethodCall { receiver, segment, .. } => segments_of(*receiver).push(segment),
        _ => Seq::empty(),
    }
}

/// How an awaited call passes its `i`-th argument.
pub open spec fn await_arg(a: MethodArg, i: int) -> AwaitArg {
    if a.is_reference {
        AwaitArg::Passed(a.fragment)
    } else {
        AwaitArg::Extracted { index: i as usize, value: a.fragment }
    }
}

/// What the rewrite gives for `e`.
pub open spec fn mcall_result(e: MethodExpr, r: Result<MethodPlan, MethodError>) -> bool {
    match e {
        MethodExpr::Await { inner, whole } => match *inner {
            MethodExpr::MethodCall { receiver_fragment, method, args, .. } => r matches Ok(
                MethodPlan::Awaited { receiver, method: m2, passed: out, chained },
            ) && receiver == receiver_fragment && m2 == method && out@.len() == args@.len() && (
            forall|i: int| 0 <= i < args@.len() ==> out@[i] == await_arg(#[trigger] args@[i], i))
                && chained == (exists|i: int|
                0 <= i < args@.len() && !(#[trigger] args@[i]).is_reference),
            _ => r == Err::<MethodPlan, MethodError>(MethodError::ExpectsAwaitedMethodCall(whole)),
        },
        MethodExpr::Try { inner, whole } => match *inner {
            MethodExpr::MethodCall { .. } => r matches Ok(MethodPlan::Fallible { base, segments })
                && base == method_whole(receiver_base(*inner)) && segments@ == segments_of(*inner),
            _ => r == Err::<MethodPlan, MethodError>(
                MethodError::ExpectsFallibleMethodCall(whole),
            ),
        },
        MethodExpr::MethodCall { receiver, method, args, .. } => r matches Ok(
            MethodPlan::Method { base, intermediates, method: m2, args: out },
        ) && base == method_whole(receiver_base(*receiver)) && intermediates@ == segments_of(
            *receiver,
        ) && m2 == method && out@ == args@.map_values(|a: MethodArg| a.fragment),
        MethodExpr::Field { base, member, .. } => r == Ok::<MethodPlan, MethodError>(
            MethodPlan::Field { base, member },
        ),
        MethodExpr::Other(f) => r == Err::<MethodPlan, MethodError>(
            MethodError::ExpectsMethodOrField(f),
        ),
    }
}

// ---------------------------------------------------------------------------
// The rewrite
// ---------------------------------------------------------------------------

fn whole_fragment(e: &MethodExpr) -> (f: usize)
    ensures
        f == method_whole(*e),
{
    match e {
        MethodExpr::Await { whole, .. } => *whole,
        MethodExpr::Try { whole, .. } => *whole,
        MethodExpr::MethodCall { whole, .. } => *whole,
        MethodExpr::Field { whole, .. } => *whole,
        MethodExpr::Other(f) => *f,
    }
}

/// The base of a chain of method calls and its methods, innermost first.
fn peel_methods(e: &MethodExpr) -> (r: (usize, Vec<usize>))
    ensures
        r.0 == method_whole(receiver_base(*e)),
        r.1@ == segments_of(*e),
    decreases e,
{
    match e {
        MethodExpr::MethodCall { receiver, segment, .. } => {
            let (base, mut segments) = peel_methods(receiver);
            segments.push(*segment);
            (base, segments)
        },
        _ => (whole_fragment(e), Vec::new()),
    }
}

/// The arguments of an awaited method call.
fn await_args(args: &Vec<MethodArg>) -> (r: (Vec<AwaitArg>, bool))
    ensures
        r.0@.len() == args@.len(),
        forall|i: int| 0 <= i < args@.len() ==> r.0@[i] == await_arg(#[trigger] args@[i], i),
        r.1 == (exists|i: int| 0 <= i < args@.len() && !(#[trigger] args@[i]).is_reference),
{
    let mut out: Vec<AwaitArg> = Vec::new();
    let mut chained = false;
    let mut i: usize = 0;
    while i < args.len()
        invariant
            i <= args@.len(),
            out@.len() == i,
            forall|k: int| 0 <= k < i ==> out@[k] == await_arg(#[trigger] args@[k], k),
            chained == (exists|k: int| 0 <= k < i && !(#[trigger] args@[k]).is_reference),
        decreases args@.len() - i,
    {
        let a = args[i];
        if a.is_reference {
            out.push(AwaitArg::Passed(a.fragment));
        } else {
            out.push(AwaitArg::Extracted { index: i, value: a.fragment });
            chained = true;
        }
        i = i + 1;
    }
    (out, chained)
}

/// Rewrites a method call or a field read on a labeled value.
pub fn mcall(e: &MethodExpr) -> (r: Result<MethodPlan, MethodError>)
    ensures
        mcall_result(*e, r),
{
    match e {
        MethodExpr::Await { inner, whole } => match &**inner {
            MethodExpr::MethodCall { receiver_fragment, method, args, .. } => {
                let (out, chained) = await_args(args);
                Ok(
                    MethodPlan::Awaited {
                        receiver: *receiver_fragment,
                        method: *method,
                        passed: out,
                        chained,
                    },
                )
            },
            _ => Err(MethodError::ExpectsAwaitedMethodCall(*whole)),
        },
        MethodExpr::Try { inner, whole } => match &**inner {
            MethodExpr::MethodCall { .. } => {
                let (base, segments) = peel_methods(inner);
                Ok(MethodPlan::Fallible { base, segments })
            },
            _ => Err(MethodError::ExpectsFallibleMethodCall(*whole)),
        },
        MethodExpr::MethodCall { receiver, method, args, .. } => {
            let (base, intermediates) = peel_methods(receiver);
            let mut out: Vec<usize> = Vec::new();
            let mut i: usize = 0;
            while i < args.len()
                invariant
                    i <= args@.len(),
                    out@ == args@.take(i as int).map_values(|a: MethodArg| a.fragment),
                decreases args@.len() - i,
            {
                out.push(args[i].fragment);
                proof {
                    assert(args@.take(i + 1) =~= args@.take(i as int).push(args@[i as int]));
                }
                i = i + 1;
            }
            proof {
                assert(args@.take(args@.len() as int) =~= args@);
            }
            Ok(MethodPlan::Method { base, intermediates, method: *method, args: out })
        },
        MethodExpr::Field { base, member, .. } => Ok(MethodPlan::Field { base: *base, member: *member }),
        MethodExpr::Other(f) => Err(MethodError::ExpectsMethodOrField(*f)),
    }
}

// ---------------------------------------------------------------------------
// The last method's arguments keep their places
// ---------------------------------------------------------------------------

/// The arguments of the last method are chained and passed in their written
/// order: the `k`-th argument passed is the `k`-th argument written.
pub proof fn lemma_method_arguments_keep_their_places(
    receiver: MethodExpr,
    receiver_fragment: usize,
    method: usize,
    args: Vec<MethodArg>,
    segment: usize,
    whole: usize,
    r: Result<MethodPlan, MethodError>,
)
    requires
        mcall_result(
            MethodExpr::MethodCall {
                receiver: Box::new(receiver),
                receiver_fragment,
                method,
                args,
                segment,
                whole,
            },
            r,
        ),
    ensures
        r matches Ok(MethodPlan::Method { method: m2, args: passed, .. }) && m2 == method
            && passed@.len() == args@.len() && forall|k: int|
            0 <= k < args@.len() ==> #[trigger] passed@[k] == args@[k].fragment,
{
}

} // verus!
