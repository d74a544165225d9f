//! The rewrite of a program-counter block.
//!
//! A block is rewritten twice. The checking rewrite produces code that is only
//! type-checked: every call is vetted for invisible side effects, every macro that
//! could leak under a secret program counter is refused, and syntax that the rules
//! do not cover is a compile error. The executed rewrite produces the code that runs:
//! calls chain their labeled arguments and label their results, assignments check
//! both explicit and implicit flows, and everything else is kept as written.
use crate::pc_policy::{
    allowlist,
    contains_chars,
    is_call_to_allowlisted_function,
    is_comparison_op,
    is_compound_assign,
    is_labeled_new_call,
    is_labeled_new_without_turbofish,
    is_logical_op,
    is_self_checking_macro,
    is_unchecked_operation_call,
    macro_in_expression,
    macro_in_statement,
    strip_whitespace,
    BinOp,
    MacroTreatment,
};
use crate::rewrite::syntax::{CallResult, Code, CodeField, CodeStmt, Expr, FieldValue, Stmt};
use vstd::prelude::*;

verus! {

// ---------------------------------------------------------------------------
// What the rewrite decides about a call
// ---------------------------------------------------------------------------

/// Compound assignments (`+=` and the like).
pub open spec fn compound_op(op: BinOp) -> bool {
    op is AddAssign || op is SubAssign || op is MulAssign || op is DivAssign || op is RemAssign
        || op is BitXorAssign || op is BitAndAssign || op is BitOrAssign || op is ShlAssign
        || op is ShrAssign
}

/// A callee path on the allowlist.
pub open spec fn allowlisted(path: Option<String>) -> bool {
    path matches Some(p) && allowlist().contains(strip_whitespace(p@))
}

/// A trusted call: its callee reads as `Labeled::new`, or it is a path on the allowlist.
/// Its result is used as it is.
pub open spec fn trusted_call(func_text: Seq<char>, path: Option<String>) -> bool {
    (contains_chars(func_text, "Labeled"@) && contains_chars(func_text, "new"@)) || allowlisted(
        path,
    )
}

/// A call written `unchecked_operation(..)` (anywhere in the call's text): its
/// first argument is kept as written.
pub open spec fn unchecked_call(call_text: Seq<char>) -> bool {
    contains_chars(call_text, "unchecked_operation"@)
}

/// The right side of an assignment that is emitted as written and then guarded
/// against the program counter: a call whose text reads as `Labeled::new` without a
/// turbofish, or a call of an allowlisted path.
pub open spec fn guarded_call(call_text: Seq<char>, path: Option<String>) -> bool {
    (contains_chars(call_text, "Labeled"@) && contains_chars(call_text, "new"@)
        && !contains_chars(call_text, "<"@)) || allowlisted(path)
}

/// Whether an assignment's right side is a guarded call.
pub open spec fn assigns_guarded_call(value: Expr) -> bool {
    value matches Expr::Call { call_text, callee_path, .. } && guarded_call(call_text@, callee_path)
}

// ---------------------------------------------------------------------------
// The checking rewrite
// ---------------------------------------------------------------------------

/// `c` is the checking rewrite of the expression `e`.
pub open spec fn checks_to(e: Expr, c: Code) -> bool
    decreases e,
{
    match e {
        Expr::Verbatim(f) => c == Code::Verbatim(f),
        Expr::If { cond, then_branch, else_branch } => c matches Code::PcIf {
            cond: cc,
            then_branch: ct,
            else_branch: ce,
        } && checks_to(*cond, *cc) && checks_stmts(then_branch@, ct@) && (match else_branch {
            None => ce is None,
            Some(b) => ce matches Some(cb) && checks_to(*b, *cb),
        }),
        Expr::IfLet { pattern, scrutinee, then_branch, else_branch } => c matches Code::IfLet {
            pattern: p2,
            scrutinee: cs,
            then_branch: ct,
            else_branch: ce,
        } && p2 == pattern && checks_to(*scrutinee, *cs) && checks_stmts(then_branch@, ct@) && (
        match else_branch {
            None => ce is None,
            Some(b) => ce matches Some(cb) && checks_to(*b, *cb),
        }),
        Expr::Assign { target, value } => if assigns_guarded_call(*value) {
            match *value {
                Expr::Call { callee_fragment, args, .. } => c matches Code::GuardedAssign {
                    target: t2,
                    callee_fragment: f2,
                    args: cargs,
                } && t2 == target && f2 == callee_fragment && checks_each(args@, cargs@),
                _ => false,
            }
        } else {
            c matches Code::SecureAssign { target: t2, value: cv } && t2 == target && checks_to(
                *value,
                *cv,
            )
        },
        Expr::Binary { op, left, right, left_fragment, .. } => if compound_op(op) {
            c matches Code::SecureAssign { target, value } && target == left_fragment && checks_to(
                *right,
                *value,
            )
        } else if op is Eq || op is Ne {
            c matches Code::LabeledCmp { equal, left: cl, right: cr } && equal == (op is Eq)
                && checks_to(*left, *cl) && checks_to(*right, *cr)
        } else if op is And || op is Or {
            c matches Code::LabeledLogic { and, left: cl, right: cr } && and == (op is And)
                && checks_to(*left, *cl) && checks_to(*right, *cr)
        } else {
            c matches Code::Binary { op: o2, left: cl, right: cr } && o2 == op && checks_to(
                *left,
                *cl,
            ) && checks_to(*right, *cr)
        },
        Expr::Unary { operator, operand } => c matches Code::Unary { operator: o2, operand: co } && o2 == operator
            && checks_to(*operand, *co),
        Expr::Call { callee_fragment, func_text, call_text, callee_path, args, first_arg, whole, .. } => {
            if unchecked_call(call_text@) {
                match first_arg {
                    Some(a) => c == Code::Verbatim(a),
                    None => c == Code::MissingArgument(whole),
                }
            } else {
                c matches Code::Call { callee, args: cargs, result } && *callee == Code::Verbatim(
                    callee_fragment,
                ) && checks_each(args@, cargs@) && result == (if trusted_call(func_text@, callee_path) {
                    CallResult::Trusted
                } else {
                    CallResult::CheckedAndWrapped
                })
            }
        },
        Expr::MethodCall { whole, .. } => c == Code::Verbatim(whole),
        Expr::Block(stmts) => c matches Code::Block(cs) && checks_stmts(stmts@, cs@),
        Expr::Unsafe(stmts) => c matches Code::Unsafe(cs) && checks_stmts(stmts@, cs@),
        Expr::While { cond, body } => c matches Code::While { cond: cc, body: cb } && checks_to(
            *cond,
            *cc,
        ) && checks_stmts(body@, cb@),
        Expr::ForLoop { pattern, iterable, body } => c matches Code::For {
            pattern: p2,
            iterable: ci,
            body: cb,
        } && p2 == pattern && checks_to(*iterable, *ci) && checks_stmts(body@, cb@),
        Expr::Paren { inner, .. } => c matches Code::Paren(ci) && checks_to(*inner, *ci),
        Expr::Field { base, member, .. } => c matches Code::Field { base: cb, member: m2 } && m2
            == member && checks_to(*base, *cb),
        Expr::Index { base, index, .. } => c matches Code::Index { base: cb, index: ci }
            && checks_to(*base, *cb) && checks_to(*index, *ci),
        Expr::Macro { name, whole, format } => if is_self_checking_macro(name@) {
            c == Code::Verbatim(whole)
        } else if name@ == "format"@ {
            match format {
                Some(fa) => c matches Code::Format { template, args: cargs } && template
                    == fa.template && checks_each(fa.args@, cargs@),
                None => c == Code::UnreadableFormat(whole),
            }
        } else {
            c == Code::RejectMacro(whole)
        },
        Expr::Return(value) => c matches Code::Return(cv) && (match value {
            None => cv is None,
            Some(b) => cv matches Some(cb) && checks_to(*b, *cb),
        }),
        Expr::Array { elems, .. } => c matches Code::Array(ce) && checks_each(elems@, ce@),
        Expr::Reference { mutable, operand, .. } => c matches Code::Reference {
            mutable: m2,
            operand: co,
        } && m2 == mutable && checks_to(*operand, *co),
        Expr::Struct { whole, .. } => c == Code::Verbatim(whole),
        Expr::Unsupported(w) => c == Code::Refused(w),
    }
}

/// Each of `cs` is the checking rewrite of the expression at its place in `es`.
pub open spec fn checks_each(es: Seq<Expr>, cs: Seq<Code>) -> bool
    decreases es,
{
    cs.len() == es.len() && forall|i: int| 0 <= i < es.len() ==> checks_to(#[trigger] es[i], cs[i])
}

/// `t` is the checking rewrite of the statement `s`.
pub open spec fn checks_stmt_to(s: Stmt, t: CodeStmt) -> bool
    decreases s,
{
    match s {
        Stmt::Expr { expr, semi } => t matches CodeStmt::Expr { code, semi: s2 } && s2 == semi
            && checks_to(expr, code),
        Stmt::Local { pattern, init } => t matches CodeStmt::Local { pattern: p2, init: ci } && p2
            == pattern && (match init {
            None => ci is None,
            Some(x) => ci matches Some(cx) && checks_to(x, cx),
        }),
        Stmt::Macro { name, whole, mac, semi } => if is_self_checking_macro(name@) || name@
            == "format"@ {
            t == CodeStmt::Verbatim(whole)
        } else {
            t == CodeStmt::RejectMacro { mac, semi }
        },
        Stmt::Item(f) => t == CodeStmt::Verbatim(f),
    }
}

/// Each of `ts` is the checking rewrite of the statement at its place in `ss`.
pub open spec fn checks_stmts(ss: Seq<Stmt>, ts: Seq<CodeStmt>) -> bool
    decreases ss,
{
    ts.len() == ss.len() && forall|i: int|
        0 <= i < ss.len() ==> checks_stmt_to(#[trigger] ss[i], ts[i])
}

// ---------------------------------------------------------------------------
// The checking rewrite, executed
// ---------------------------------------------------------------------------

proof fn lemma_format_is_not_self_checking()
    ensures
        !is_self_checking_macro("format"@),
{
    reveal_strlit("format");
    reveal_strlit("fcall");
    reveal_strlit("mcall");
    reveal_strlit("relabel");
    reveal_strlit("pc_block");
    reveal_strlit("panic");
    assert("format"@.len() != "fcall"@.len());
    assert("format"@.len() != "mcall"@.len());
    assert("format"@.len() != "relabel"@.len());
    assert("format"@.len() != "pc_block"@.len());
    assert("format"@.len() != "panic"@.len());
}

fn path_str(path: &Option<String>) -> (r: Option<&str>)
    ensures
        match *path {
            None => r is None,
            Some(p) => r matches Some(q) && q@ == p@,
        },
{
    match path {
        None => None,
        Some(p) => Some(p.as_str()),
    }
}

/// Whether a call is trusted (see [`trusted_call`]).
pub fn is_trusted_call(func_text: &String, path: &Option<String>) -> (r: bool)
    ensures
        r == trusted_call(func_text@, *path),
{
    is_labeled_new_call(func_text.as_str()) || is_call_to_allowlisted_function(path_str(path))
}

/// Whether an assignment's right side is emitted as written and guarded (see
/// [`assigns_guarded_call`]).
pub fn is_guarded_assignment(value: &Expr) -> (r: bool)
    ensures
        r == assigns_guarded_call(*value),
{
    match value {
        Expr::Call { call_text, callee_path, .. } => is_labeled_new_without_turbofish(
            call_text.as_str(),
        ) || is_call_to_allowlisted_function(path_str(callee_path)),
        _ => false,
    }
}

/// The checking rewrite of an expression.
pub fn check_expr(e: &Expr) -> (c: Code)
    ensures
        checks_to(*e, c),
    decreases e,
{
    match e {
        Expr::Verbatim(f) => Code::Verbatim(*f),
        Expr::If { cond, then_branch, else_branch } => {
            let cc = check_expr(cond);
            let ct = check_block(then_branch);
            let ce = match else_branch {
                None => None,
                Some(b) => Some(Box::new(check_expr(b))),
            };
            Code::PcIf { cond: Box::new(cc), then_branch: ct, else_branch: ce }
        },
        Expr::IfLet { pattern, scrutinee, then_branch, else_branch } => {
            let cs = check_expr(scrutinee);
            let ct = check_block(then_branch);
            let ce = match else_branch {
                None => None,
                Some(b) => Some(Box::new(check_expr(b))),
            };
            Code::IfLet {
                pattern: *pattern,
                scrutinee: Box::new(cs),
                then_branch: ct,
                else_branch: ce,
            }
        },
        Expr::Assign { target, value } => {
            if is_guarded_assignment(value) {
                match &**value {
                    Expr::Call { callee_fragment, args, .. } => {
                        let cargs = check_each(args);
                        Code::GuardedAssign { target: *target, callee_fragment: *callee_fragment, args: cargs }
                    },
                    _ => Code::Refused(*target),
                }
            } else {
                let cv = check_expr(value);
                Code::SecureAssign { target: *target, value: Box::new(cv) }
            }
        },
        Expr::Binary { op, left, right, left_fragment, .. } => {
            if is_compound_assign(*op) {
                let cv = check_expr(right);
                Code::SecureAssign { target: *left_fragment, value: Box::new(cv) }
            } else if is_comparison_op(*op) {
                let cl = check_expr(left);
                let cr = check_expr(right);
                Code::LabeledCmp {
                    equal: matches!(op, BinOp::Eq),
                    left: Box::new(cl),
                    right: Box::new(cr),
                }
            } else if is_logical_op(*op) {
                let cl = check_expr(left);
                let cr = check_expr(right);
                Code::LabeledLogic {
                    and: matches!(op, BinOp::And),
                    left: Box::new(cl),
                    right: Box::new(cr),
                }
            } else {
                let cl = check_expr(left);
                let cr = check_expr(right);
                Code::Binary { op: *op, left: Box::new(cl), right: Box::new(cr) }
            }
        },
        Expr::Unary { operator, operand } => {
            let co = check_expr(operand);
            Code::Unary { operator: *operator, operand: Box::new(co) }
        },
        Expr::Call { callee_fragment, func_text, call_text, callee_path, args, first_arg, whole, .. } => {
            if is_unchecked_operation_call(call_text.as_str()) {
                match first_arg {
                    Some(a) => Code::Verbatim(*a),
                    None => Code::MissingArgument(*whole),
                }
            } else {
                let cargs = check_each(args);
                let result = if is_trusted_call(func_text, callee_path) {
                    CallResult::Trusted
                } else {
                    CallResult::CheckedAndWrapped
                };
                Code::Call { callee: Box::new(Code::Verbatim(*callee_fragment)), args: cargs, result }
            }
        },
        Expr::MethodCall { whole, .. } => Code::Verbatim(*whole),
        Expr::Block(stmts) => Code::Block(check_block(stmts)),
        Expr::Unsafe(stmts) => Code::Unsafe(check_block(stmts)),
        Expr::While { cond, body } => {
            let cc = check_expr(cond);
            let cb = check_block(body);
            Code::While { cond: Box::new(cc), body: cb }
        },
        Expr::ForLoop { pattern, iterable, body } => {
            let ci = check_expr(iterable);
            let cb = check_block(body);
            Code::For { pattern: *pattern, iterable: Box::new(ci), body: cb }
        },
        Expr::Paren { inner, .. } => Code::Paren(Box::new(check_expr(inner))),
        Expr::Field { base, member, .. } => {
            let cb = check_expr(base);
            Code::Field { base: Box::new(cb), member: *member }
        },
        Expr::Index { base, index, .. } => {
            let cb = check_expr(base);
            let ci = check_expr(index);
            Code::Index { base: Box::new(cb), index: Box::new(ci) }
        },
        Expr::Macro { name, whole, format } => {
            match macro_in_expression(name.as_str()) {
                MacroTreatment::PassThrough => Code::Verbatim(*whole),
                MacroTreatment::FormatArguments => match format {
                    Some(fa) => {
                        let cargs = check_each(&fa.args);
                        Code::Format { template: fa.template, args: cargs }
                    },
                    None => Code::UnreadableFormat(*whole),
                },
                MacroTreatment::RejectUnderSecretPc => Code::RejectMacro(*whole),
            }
        },
        Expr::Return(value) => match value {
            None => Code::Return(None),
            Some(b) => Code::Return(Some(Box::new(check_expr(b)))),
        },
        Expr::Array { elems, .. } => Code::Array(check_each(elems)),
        Expr::Reference { mutable, operand, .. } => {
            let co = check_expr(operand);
            Code::Reference { mutable: *mutable, operand: Box::new(co) }
        },
        Expr::Struct { whole, .. } => Code::Verbatim(*whole),
        Expr::Unsupported(w) => Code::Refused(*w),
    }
}

/// The checking rewrite of each expression of a list.
pub fn check_each(es: &Vec<Expr>) -> (cs: Vec<Code>)
    ensures
        checks_each(es@, cs@),
    decreases es,
{
    let mut cs: Vec<Code> = Vec::new();
    let mut i: usize = 0;
    while i < es.len()
        invariant
            i <= es@.len(),
            cs@.len() == i,
            forall|k: int| 0 <= k < i ==> checks_to(#[trigger] es@[k], cs@[k]),
        decreases es@.len() - i,
    {
        proof {
            assert(decreases_to!(es => es@[i as int]));
        }
        cs.push(check_expr(&es[i]));
        i = i + 1;
    }
    cs
}

/// The checking rewrite of a statement.
pub fn check_stmt(s: &Stmt) -> (t: CodeStmt)
    ensures
        checks_stmt_to(*s, t),
    decreases s,
{
    match s {
        Stmt::Expr { expr, semi } => CodeStmt::Expr { code: check_expr(expr), semi: *semi },
        Stmt::Local { pattern, init } => {
            let ci = match init {
                None => None,
                Some(x) => Some(check_expr(x)),
            };
            CodeStmt::Local { pattern: *pattern, init: ci }
        },
        Stmt::Macro { name, whole, mac, semi } => match macro_in_statement(name.as_str()) {
            MacroTreatment::RejectUnderSecretPc => CodeStmt::RejectMacro { mac: *mac, semi: *semi },
            _ => CodeStmt::Verbatim(*whole),
        },
        Stmt::Item(f) => CodeStmt::Verbatim(*f),
    }
}

/// The checking rewrite of a block's statements.
pub fn check_block(stmts: &Vec<Stmt>) -> (ts: Vec<CodeStmt>)
    ensures
        checks_stmts(stmts@, ts@),
    decreases stmts,
{
    let mut ts: Vec<CodeStmt> = Vec::new();
    let mut i: usize = 0;
    while i < stmts.len()
        invariant
            i <= stmts@.len(),
            ts@.len() == i,
            forall|k: int| 0 <= k < i ==> checks_stmt_to(#[trigger] stmts@[k], ts@[k]),
        decreases stmts@.len() - i,
    {
        proof {
            assert(decreases_to!(stmts => stmts@[i as int]));
        }
        ts.push(check_stmt(&stmts[i]));
        i = i + 1;
    }
    ts
}

// ---------------------------------------------------------------------------
// The executed rewrite
// ---------------------------------------------------------------------------

/// `c` is the executed rewrite of the expression `e`. Conditions and branches of an
/// `if` take the checking rewrite; what the rules do not transform is kept as written.
pub open spec fn expands_to(e: Expr, c: Code) -> bool
    decreases e,
{
    match e {
        Expr::Verbatim(f) => c == Code::Verbatim(f),
        Expr::If { cond, then_branch, else_branch } => c matches Code::PcIf {
            cond: cc,
            then_branch: ct,
            else_branch: ce,
        } && checks_to(*cond, *cc) && checks_stmts(then_branch@, ct@) && (match else_branch {
            None => ce is None,
            Some(b) => ce matches Some(cb) && checks_to(*b, *cb),
        }),
        Expr::IfLet { pattern, scrutinee, then_branch, else_branch } => c matches Code::IfLet {
            pattern: p2,
            scrutinee: cs,
            then_branch: ct,
            else_branch: ce,
        } && p2 == pattern && checks_to(*scrutinee, *cs) && checks_stmts(then_branch@, ct@) && (
        match else_branch {
            None => ce is None,
            Some(b) => ce matches Some(cb) && checks_to(*b, *cb),
        }),
        Expr::Assign { target, value } => if assigns_guarded_call(*value) {
            match *value {
                Expr::Call { callee_fragment, args, .. } => c matches Code::GuardedAssign {
                    target: t2,
                    callee_fragment: f2,
                    args: cargs,
                } && t2 == target && f2 == callee_fragment && expands_each(args@, cargs@),
                _ => false,
            }
        } else {
            c matches Code::SecureAssign { target: t2, value: cv } && t2 == target && expands_to(
                *value,
                *cv,
            )
        },
        Expr::Binary { op, left, right, left_fragment, whole } => if compound_op(op) {
            c matches Code::GuardedCompound { target, op: o2, value } && target == left_fragment
                && o2 == op && expands_to(*right, *value)
        } else if op is Eq || op is Ne {
            c matches Code::LabeledCmp { equal, left: cl, right: cr } && equal == (op is Eq)
                && expands_to(*left, *cl) && expands_to(*right, *cr)
        } else if op is And || op is Or {
            c matches Code::LabeledLogic { and, left: cl, right: cr } && and == (op is And)
                && expands_to(*left, *cl) && expands_to(*right, *cr)
        } else {
            c == Code::Verbatim(whole)
        },
        Expr::Unary { operator, operand } => c matches Code::Unary { operator: o2, operand: co } && o2 == operator
            && expands_to(*operand, *co),
        Expr::Call { callee, func_text, call_text, callee_path, args, first_arg, whole, .. } => {
            if unchecked_call(call_text@) {
                match first_arg {
                    Some(a) => c == Code::Verbatim(a),
                    None => c == Code::MissingArgument(whole),
                }
            } else {
                c matches Code::Call { callee: cc, args: cargs, result } && expands_to(*callee, *cc)
                    && expands_each(args@, cargs@) && result == (if trusted_call(func_text@, callee_path) {
                    CallResult::Trusted
                } else {
                    CallResult::Wrapped
                })
            }
        },
        Expr::MethodCall { receiver, method, args, .. } => c matches Code::MethodCall {
            receiver: cr,
            method: m2,
            args: cargs,
        } && m2 == method && expands_to(*receiver, *cr) && expands_each(args@, cargs@),
        Expr::Block(stmts) => c matches Code::Block(cs) && expands_stmts(stmts@, cs@),
        Expr::Unsafe(stmts) => c matches Code::Unsafe(cs) && expands_stmts(stmts@, cs@),
        Expr::While { cond, body } => c matches Code::While { cond: cc, body: cb } && expands_to(
            *cond,
            *cc,
        ) && expands_stmts(body@, cb@),
        Expr::ForLoop { pattern, iterable, body } => c matches Code::For {
            pattern: p2,
            iterable: ci,
            body: cb,
        } && p2 == pattern && expands_to(*iterable, *ci) && expands_stmts(body@, cb@),
        Expr::Macro { name, whole, format } => if name@ == "format"@ {
            match format {
                Some(fa) => c matches Code::Format { template, args: cargs } && template
                    == fa.template && expands_each(fa.args@, cargs@),
                None => c == Code::UnreadableFormat(whole),
            }
        } else {
            c == Code::Verbatim(whole)
        },
        Expr::Return(value) => c matches Code::Return(cv) && (match value {
            None => cv is None,
            Some(b) => cv matches Some(cb) && expands_to(*b, *cb),
        }),
        Expr::Struct { path, fields, rest, .. } => c matches Code::Struct {
            path: p2,
            fields: cfs,
            rest: cr,
        } && p2 == path && expands_fields(fields@, cfs@) && (match rest {
            None => cr is None,
            Some(b) => cr matches Some(cb) && expands_to(*b, *cb),
        }),
        Expr::Paren { whole, .. } => c == Code::Verbatim(whole),
        Expr::Field { whole, .. } => c == Code::Verbatim(whole),
        Expr::Index { whole, .. } => c == Code::Verbatim(whole),
        Expr::Array { whole, .. } => c == Code::Verbatim(whole),
        Expr::Reference { whole, .. } => c == Code::Verbatim(whole),
        Expr::Unsupported(w) => c == Code::Verbatim(w),
    }
}

/// Each of `cs` is the executed rewrite of the expression at its place in `es`.
pub open spec fn expands_each(es: Seq<Expr>, cs: Seq<Code>) -> bool
    decreases es,
{
    cs.len() == es.len() && forall|i: int|
        0 <= i < es.len() ==> expands_to(#[trigger] es[i], cs[i])
}

/// Each of `cfs` keeps the member of the field at its place in `fields` and holds the
/// executed rewrite of its value.
pub open spec fn expands_fields(fields: Seq<FieldValue>, cfs: Seq<CodeField>) -> bool
    decreases fields,
{
    cfs.len() == fields.len() && forall|i: int|
        0 <= i < fields.len() ==> cfs[i].member == (#[trigger] fields[i]).member && expands_to(
            fields[i].value,
            cfs[i].value,
        )
}

/// `t` is the executed rewrite of the statement `s`.
pub open spec fn expands_stmt_to(s: Stmt, t: CodeStmt) -> bool
    decreases s,
{
    match s {
        Stmt::Expr { expr, semi } => t matches CodeStmt::Expr { code, semi: s2 } && s2 == semi
            && expands_to(expr, code),
        Stmt::Local { pattern, init } => t matches CodeStmt::Local { pattern: p2, init: ci } && p2
            == pattern && (match init {
            None => ci is None,
            Some(x) => ci matches Some(cx) && expands_to(x, cx),
        }),
        Stmt::Macro { whole, .. } => t == CodeStmt::Verbatim(whole),
        Stmt::Item(f) => t == CodeStmt::Verbatim(f),
    }
}

/// Each of `ts` is the executed rewrite of the statement at its place in `ss`.
pub open spec fn expands_stmts(ss: Seq<Stmt>, ts: Seq<CodeStmt>) -> bool
    decreases ss,
{
    ts.len() == ss.len() && forall|i: int|
        0 <= i < ss.len() ==> expands_stmt_to(#[trigger] ss[i], ts[i])
}

// ---------------------------------------------------------------------------
// The executed rewrite, executed
// ---------------------------------------------------------------------------

/// The executed rewrite of an expression.
pub fn expand_expr(e: &Expr) -> (c: Code)
    ensures
        expands_to(*e, c),
    decreases e,
{
    match e {
        Expr::Verbatim(f) => Code::Verbatim(*f),
        Expr::If { .. } => check_expr(e),
        Expr::IfLet { .. } => check_expr(e),
        Expr::Assign { target, value } => {
            if is_guarded_assignment(value) {
                match &**value {
                    Expr::Call { callee_fragment, args, .. } => {
                        let cargs = expand_each(args);
                        Code::GuardedAssign { target: *target, callee_fragment: *callee_fragment, args: cargs }
                    },
                    _ => Code::Refused(*target),
                }
            } else {
                let cv = expand_expr(value);
                Code::SecureAssign { target: *target, value: Box::new(cv) }
            }
        },
        Expr::Binary { op, left, right, left_fragment, whole } => {
            if is_compound_assign(*op) {
                let cv = expand_expr(right);
                Code::GuardedCompound { target: *left_fragment, op: *op, value: Box::new(cv) }
            } else if is_comparison_op(*op) {
                let cl = expand_expr(left);
                let cr = expand_expr(right);
                Code::LabeledCmp {
                    equal: matches!(op, BinOp::Eq),
                    left: Box::new(cl),
                    right: Box::new(cr),
                }
            } else if is_logical_op(*op) {
                let cl = expand_expr(left);
                let cr = expand_expr(right);
                Code::LabeledLogic {
                    and: matches!(op, BinOp::And),
                    left: Box::new(cl),
                    right: Box::new(cr),
                }
            } else {
                Code::Verbatim(*whole)
            }
        },
        Expr::Unary { operator, operand } => {
            let co = expand_expr(operand);
            Code::Unary { operator: *operator, operand: Box::new(co) }
        },
        Expr::Call { callee, func_text, call_text, callee_path, args, first_arg, whole, .. } => {
            if is_unchecked_operation_call(call_text.as_str()) {
                match first_arg {
                    Some(a) => Code::Verbatim(*a),
                    None => Code::MissingArgument(*whole),
                }
            } else {
                let cc = expand_expr(callee);
                let cargs = expand_each(args);
                let result = if is_trusted_call(func_text, callee_path) {
                    CallResult::Trusted
                } else {
                    CallResult::Wrapped
                };
                Code::Call { callee: Box::new(cc), args: cargs, result }
            }
        },
        Expr::MethodCall { receiver, method, args, .. } => {
            let cr = expand_expr(receiver);
            let cargs = expand_each(args);
            Code::MethodCall { receiver: Box::new(cr), method: *method, args: cargs }
        },
        Expr::Block(stmts) => Code::Block(expand_block(stmts)),
        Expr::Unsafe(stmts) => Code::Unsafe(expand_block(stmts)),
        Expr::While { cond, body } => {
            let cc = expand_expr(cond);
            let cb = expand_block(body);
            Code::While { cond: Box::new(cc), body: cb }
        },
        Expr::ForLoop { pattern, iterable, body } => {
            let ci = expand_expr(iterable);
            let cb = expand_block(body);
            Code::For { pattern: *pattern, iterable: Box::new(ci), body: cb }
        },
        Expr::Macro { name, whole, format } => {
            match macro_in_expression(name.as_str()) {
                MacroTreatment::FormatArguments => match format {
                    Some(fa) => {
                        let cargs = expand_each(&fa.args);
                        Code::Format { template: fa.template, args: cargs }
                    },
                    None => Code::UnreadableFormat(*whole),
                },
                _ => {
                    proof {
                        lemma_format_is_not_self_checking();
                    }
                    Code::Verbatim(*whole)
                },
            }
        },
        Expr::Return(value) => match value {
            None => Code::Return(None),
            Some(b) => Code::Return(Some(Box::new(expand_expr(b)))),
        },
        Expr::Struct { path, fields, rest, .. } => {
            let cfs = expand_fields(fields);
            let cr = match rest {
                None => None,
                Some(b) => Some(Box::new(expand_expr(b))),
            };
            Code::Struct { path: *path, fields: cfs, rest: cr }
        },
        Expr::Paren { whole, .. } => Code::Verbatim(*whole),
        Expr::Field { whole, .. } => Code::Verbatim(*whole),
        Expr::Index { whole, .. } => Code::Verbatim(*whole),
        Expr::Array { whole, .. } => Code::Verbatim(*whole),
        Expr::Reference { whole, .. } => Code::Verbatim(*whole),
        Expr::Unsupported(w) => Code::Verbatim(*w),
    }
}

/// The executed rewrite of each expression of a list.
pub fn expand_each(es: &Vec<Expr>) -> (cs: Vec<Code>)
    ensures
        expands_each(es@, cs@),
    decreases es,
{
    let mut cs: Vec<Code> = Vec::new();
    let mut i: usize = 0;
    while i < es.len()
        invariant
            i <= es@.len(),
            cs@.len() == i,
            forall|k: int| 0 <= k < i ==> expands_to(#[trigger] es@[k], cs@[k]),
        decreases es@.len() - i,
    {
        proof {
            assert(decreases_to!(es => es@[i as int]));
        }
        cs.push(expand_expr(&es[i]));
        i = i + 1;
    }
    cs
}

/// The executed rewrite of the fields of a struct literal.
pub fn expand_fields(fields: &Vec<FieldValue>) -> (cfs: Vec<CodeField>)
    ensures
        expands_fields(fields@, cfs@),
    decreases fields,
{
    let mut cfs: Vec<CodeField> = Vec::new();
    let mut i: usize = 0;
    while i < fields.len()
        invariant
            i <= fields@.len(),
            cfs@.len() == i,
            forall|k: int|
                0 <= k < i ==> cfs@[k].member == (#[trigger] fields@[k]).member && expands_to(
                    fields@[k].value,
                    cfs@[k].value,
                ),
        decreases fields@.len() - i,
    {
        let field = &fields[i];
        proof {
            assert(decreases_to!(fields => fields@[i as int]));
        }
        let value = expand_expr(&field.value);
        cfs.push(CodeField { member: field.member, value });
        i = i + 1;
    }
    cfs
}

/// The executed rewrite of a statement.
pub fn expand_stmt(s: &Stmt) -> (t: CodeStmt)
    ensures
        expands_stmt_to(*s, t),
    decreases s,
{
    match s {
        Stmt::Expr { expr, semi } => CodeStmt::Expr { code: expand_expr(expr), semi: *semi },
        Stmt::Local { pattern, init } => {
            let ci = match init {
                None => None,
                Some(x) => Some(expand_expr(x)),
            };
            CodeStmt::Local { pattern: *pattern, init: ci }
        },
        Stmt::Macro { whole, .. } => CodeStmt::Verbatim(*whole),
        Stmt::Item(f) => CodeStmt::Verbatim(*f),
    }
}

/// The executed rewrite of a block's statements.
pub fn expand_block(stmts: &Vec<Stmt>) -> (ts: Vec<CodeStmt>)
    ensures
        expands_stmts(stmts@, ts@),
    decreases stmts,
{
    let mut ts: Vec<CodeStmt> = Vec::new();
    let mut i: usize = 0;
    while i < stmts.len()
        invariant
            i <= stmts@.len(),
            ts@.len() == i,
            forall|k: int| 0 <= k < i ==> expands_stmt_to(#[trigger] stmts@[k], ts@[k]),
        decreases stmts@.len() - i,
    {
        proof {
            assert(decreases_to!(stmts => stmts@[i as int]));
        }
        ts.push(expand_stmt(&stmts[i]));
        i = i + 1;
    }
    ts
}

// ---------------------------------------------------------------------------
// The block
// ---------------------------------------------------------------------------

/// A program-counter block: its starting label (`None`: public) and its statements.
pub struct PcBlockInput {
    pub start_label: Option<usize>,
    pub block: Vec<Stmt>,
}

/// Both rewrites of a program-counter block. The executed statements run; the
/// checking statements are type-checked in a branch that never runs, under the same
/// starting label.
pub struct PcBlockRewrite {
    pub start_label: Option<usize>,
    pub executed: Vec<CodeStmt>,
    pub checking: Vec<CodeStmt>,
}

/// Rewrites a program-counter block.
pub fn pc_block(input: &PcBlockInput) -> (r: PcBlockRewrite)
    ensures
        r.start_label == input.start_label,
        expands_stmts(input.block@, r.executed@),
        checks_stmts(input.block@, r.checking@),
{
    let executed = expand_block(&input.block);
    let checking = check_block(&input.block);
    PcBlockRewrite { start_label: input.start_label, executed, checking }
}

// ---------------------------------------------------------------------------
// Laws
// ---------------------------------------------------------------------------

/// The code that runs for an `if` is the code that was checked: its condition and
/// both branches take the checking rewrite in the executed block too.
pub proof fn lemma_branches_run_checked_code(e: Expr, c: Code)
    requires
        e is If || e is IfLet,
    ensures
        expands_to(e, c) <==> checks_to(e, c),
{
}

/// Both rewrites trust the same calls: a call (other than `unchecked_operation`)
/// whose result is used as it is in the executed block is also trusted in the
/// checking block, and every other call has its result labeled in the one and
/// vetted for invisible side effects in the other.
pub proof fn lemma_rewrites_agree_on_trusted_calls(e: Expr, checked: Code, executed: Code)
    requires
        e matches Expr::Call { call_text, .. } && !unchecked_call(call_text@),
        checks_to(e, checked),
        expands_to(e, executed),
    ensures
        checked is Call,
        executed is Call,
        checked->Call_args@.len() == executed->Call_args@.len(),
        checked->result == CallResult::Trusted <==> executed->result == CallResult::Trusted,
        checked->result != CallResult::Trusted ==> checked->result == CallResult::CheckedAndWrapped
            && executed->result == CallResult::Wrapped,
{
    match e {
        Expr::Call { args, .. } => {
            assert(checks_each(args@, checked->Call_args@));
            assert(expands_each(args@, executed->Call_args@));
        },
        _ => {},
    }
}

// ---------------------------------------------------------------------------
// The checking rewrite keeps operands in their written places
// ---------------------------------------------------------------------------

/// An expression made of paths and literals combined by indexing, field reads,
/// parentheses, unary operators and binary operators other than assignments,
/// comparisons and logical operators: the checking rewrite keeps it operator by
/// operator.
pub open spec fn operand_expr(e: Expr) -> bool
    decreases e,
{
    match e {
        Expr::Verbatim(_) => true,
        Expr::Index { base, index, .. } => operand_expr(*base) && operand_expr(*index),
        Expr::Field { base, .. } => operand_expr(*base),
        Expr::Paren { inner, .. } => operand_expr(*inner),
        Expr::Unary { operand, .. } => operand_expr(*operand),
        Expr::Binary { op, left, right, .. } => !compound_op(op) && !(op is Eq || op is Ne) && !(
        op is And || op is Or) && operand_expr(*left) && operand_expr(*right),
        _ => false,
    }
}

/// The pieces of such an expression as written, left to right: paths and literals,
/// operators of unary expressions, and members read.
pub open spec fn written_pieces(e: Expr) -> Seq<usize>
    decreases e,
{
    match e {
        Expr::Verbatim(f) => seq![f],
        Expr::Index { base, index, .. } => written_pieces(*base) + written_pieces(*index),
        Expr::Field { base, member, .. } => written_pieces(*base).push(member),
        Expr::Paren { inner, .. } => written_pieces(*inner),
        Expr::Unary { operator, operand } => seq![operator] + written_pieces(*operand),
        Expr::Binary { left, right, .. } => written_pieces(*left) + written_pieces(*right),
        _ => Seq::empty(),
    }
}

/// The pieces of generated code, left to right, in the same sense.
pub open spec fn code_pieces(c: Code) -> Seq<usize>
    decreases c,
{
    match c {
        Code::Verbatim(f) => seq![f],
        Code::Index { base, index } => code_pieces(*base) + code_pieces(*index),
        Code::Field { base, member } => code_pieces(*base).push(member),
        Code::Paren(inner) => code_pieces(*inner),
        Code::Unary { operator, operand } => seq![operator] + code_pieces(*operand),
        Code::Binary { left, right, .. } => code_pieces(*left) + code_pieces(*right),
        _ => Seq::empty(),
    }
}

/// The binary operators of such an expression, left to right.
pub open spec fn written_operators(e: Expr) -> Seq<BinOp>
    decreases e,
{
    match e {
        Expr::Index { base, index, .. } => written_operators(*base) + written_operators(*index),
        Expr::Field { base, .. } => written_operators(*base),
        Expr::Paren { inner, .. } => written_operators(*inner),
        Expr::Unary { operand, .. } => written_operators(*operand),
        Expr::Binary { op, left, right, .. } => written_operators(*left).push(op) + written_operators(
            *right,
        ),
        _ => Seq::empty(),
    }
}

/// The binary operators of generated code, left to right.
pub open spec fn code_operators(c: Code) -> Seq<BinOp>
    decreases c,
{
    match c {
        Code::Index { base, index } => code_operators(*base) + code_operators(*index),
        Code::Field { base, .. } => code_operators(*base),
        Code::Paren(inner) => code_operators(*inner),
        Code::Unary { operand, .. } => code_operators(*operand),
        Code::Binary { op, left, right } => code_operators(*left).push(op) + code_operators(*right),
        _ => Seq::empty(),
    }
}

/// The checking rewrite keeps every piece of an operand expression, and every binary
/// operator, in its written place: `arr[i]` stays `arr[i]`, `a - b` stays `a - b`,
/// `x.f` reads `f` of `x`.
pub proof fn lemma_checking_keeps_operands_in_place(e: Expr, c: Code)
    requires
        operand_expr(e),
        checks_to(e, c),
    ensures
        code_pieces(c) == written_pieces(e),
        code_operators(c) == written_operators(e),
    decreases e,
{
    match e {
        Expr::Verbatim(_) => {},
        Expr::Index { base, index, .. } => {
            let (cb, ci) = (c->Index_base, c->Index_index);
            lemma_checking_keeps_operands_in_place(*base, *cb);
            lemma_checking_keeps_operands_in_place(*index, *ci);
        },
        Expr::Field { base, .. } => {
            lemma_checking_keeps_operands_in_place(*base, *c->Field_base);
        },
        Expr::Paren { inner, .. } => {
            lemma_checking_keeps_operands_in_place(*inner, *c->Paren_0);
        },
        Expr::Unary { operand, .. } => {
            lemma_checking_keeps_operands_in_place(*operand, *c->Unary_operand);
        },
        Expr::Binary { left, right, .. } => {
            lemma_checking_keeps_operands_in_place(*left, *c->Binary_left);
            lemma_checking_keeps_operands_in_place(*right, *c->Binary_right);
        },
        _ => {},
    }
}

} // verus!
