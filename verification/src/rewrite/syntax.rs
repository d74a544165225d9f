//! The syntax that the flow-checking rewrite reads and the code it produces.
//!
//! Parts of the source that the rewrite never looks into (paths, literals,
//! patterns, types, member names, whole expressions kept as written) are
//! fragments: numbers that refer to the tokens held by the caller.
use crate::pc_policy::BinOp;
use vstd::prelude::*;

verus! {

/// The arguments of a `format!` invocation.
pub struct FormatArgs {
    /// The format string, kept as written.
    pub template: usize,
    /// The arguments after the format string.
    pub args: Vec<Expr>,
}

/// A field of a struct literal.
pub struct FieldValue {
    /// The field name, kept as written.
    pub member: usize,
    pub value: Expr,
}

/// An expression inside a program-counter block.
pub enum Expr {
    /// A path or a literal.
    Verbatim(usize),
    /// `if cond { then_branch } else else_branch`
    If { cond: Box<Expr>, then_branch: Vec<Stmt>, else_branch: Option<Box<Expr>> },
    /// `if let pattern = scrutinee { then_branch } else else_branch`
    IfLet {
        pattern: usize,
        scrutinee: Box<Expr>,
        then_branch: Vec<Stmt>,
        else_branch: Option<Box<Expr>>,
    },
    /// `target = value`
    Assign { target: usize, value: Box<Expr> },
    /// `left op right`, compound assignments (`+=` ...) included; `left_fragment` and
    /// `whole` keep the left operand and the whole expression as written.
    Binary { op: BinOp, left: Box<Expr>, right: Box<Expr>, left_fragment: usize, whole: usize },
    /// `op operand`
    Unary { operator: usize, operand: Box<Expr> },
    /// `callee(args)`.
    Call {
        callee: Box<Expr>,
        /// The callee expression, kept as written.
        callee_fragment: usize,
        /// The text of the callee expression.
        func_text: String,
        /// The text of the whole call followed by `.func`: the rewrite tests it for
        /// `unchecked_operation` and for a label-free `Labeled::new`.
        call_text: String,
        /// The callee's text when the callee is a path.
        callee_path: Option<String>,
        args: Vec<Expr>,
        /// The first argument, kept as written.
        first_arg: Option<usize>,
        whole: usize,
    },
    /// `receiver.method(args)`; `method` keeps the name and turbofish as written.
    MethodCall { receiver: Box<Expr>, method: usize, args: Vec<Expr>, whole: usize },
    /// `{ stmts }`
    Block(Vec<Stmt>),
    /// `unsafe { stmts }`
    Unsafe(Vec<Stmt>),
    /// `while cond { body }`
    While { cond: Box<Expr>, body: Vec<Stmt> },
    /// `for pattern in iterable { body }`
    ForLoop { pattern: usize, iterable: Box<Expr>, body: Vec<Stmt> },
    /// `(inner)`
    Paren { inner: Box<Expr>, whole: usize },
    /// `base.member`
    Field { base: Box<Expr>, member: usize, whole: usize },
    /// `base[index]`
    Index { base: Box<Expr>, index: Box<Expr>, whole: usize },
    /// `name!(...)`; `format` holds the arguments of a `format!` that could be read.
    Macro { name: String, whole: usize, format: Option<FormatArgs> },
    /// `return value`
    Return(Option<Box<Expr>>),
    /// `[elems]`
    Array { elems: Vec<Expr>, whole: usize },
    /// `&operand` or `&mut operand`
    Reference { mutable: bool, operand: Box<Expr>, whole: usize },
    /// `path { fields, ..rest }`
    Struct { path: usize, fields: Vec<FieldValue>, rest: Option<Box<Expr>>, whole: usize },
    /// Any other syntax.
    Unsupported(usize),
}

/// A statement inside a program-counter block.
pub enum Stmt {
    /// An expression, with or without a trailing semicolon.
    Expr { expr: Expr, semi: bool },
    /// `let pattern = init;`
    Local { pattern: usize, init: Option<Expr> },
    /// A macro statement: `whole` with its semicolon, `mac` without.
    Macro { name: String, whole: usize, mac: usize, semi: bool },
    /// An item or any other statement.
    Item(usize),
}

/// How the result of a call comes back.
#[derive(PartialEq, Eq, Structural, Clone, Copy, Debug)]
pub enum CallResult {
    /// Trusted callee: the result is used as it is.
    Trusted,
    /// The result goes through `PcCallResult::wrap_result`.
    Wrapped,
    /// The result goes through `check_isef`, then `PcCallResult::wrap_result`.
    CheckedAndWrapped,
}

/// A field of a struct literal in generated code.
#[derive(PartialEq, Eq, Debug)]
pub struct CodeField {
    pub member: usize,
    pub value: Code,
}

/// Generated code.
#[derive(PartialEq, Eq, Debug)]
pub enum Code {
    /// Tokens kept as written.
    Verbatim(usize),
    /// An `if` that inspects its condition (`inspect_condition`, `check_isef`) and
    /// runs each branch under the program counter joined with the condition's label.
    PcIf { cond: Box<Code>, then_branch: Vec<CodeStmt>, else_branch: Option<Box<Code>> },
    /// `if let pattern = scrutinee { .. } else ..`
    IfLet {
        pattern: usize,
        scrutinee: Box<Code>,
        then_branch: Vec<CodeStmt>,
        else_branch: Option<Box<Code>>,
    },
    /// `secure_assign_with_pc(&mut target, value, pc)`: explicit and implicit flow checked.
    SecureAssign { target: usize, value: Box<Code> },
    /// `target = callee(args); pc_guard_assign(&mut target, pc)`: implicit flow checked.
    GuardedAssign { target: usize, callee_fragment: usize, args: Vec<Code> },
    /// `secure_assign_with_pc(&mut target, target, pc); target op value`.
    GuardedCompound { target: usize, op: BinOp, value: Box<Code> },
    /// `unsafe { .. }`
    Unsafe(Vec<CodeStmt>),
    /// A call whose arguments are each chained through their labels.
    Call { callee: Box<Code>, args: Vec<Code>, result: CallResult },
    /// `receiver.method(args)`
    MethodCall { receiver: Box<Code>, method: usize, args: Vec<Code> },
    /// `path { fields, ..rest }`
    Struct { path: usize, fields: Vec<CodeField>, rest: Option<Box<Code>> },
    /// `{ .. }`
    Block(Vec<CodeStmt>),
    /// `while` on the inspected condition.
    While { cond: Box<Code>, body: Vec<CodeStmt> },
    /// `for pattern in iterable { .. }`
    For { pattern: usize, iterable: Box<Code>, body: Vec<CodeStmt> },
    /// `(inner)`
    Paren(Box<Code>),
    /// `labeled_eq` (`equal`) or `labeled_ne`.
    LabeledCmp { equal: bool, left: Box<Code>, right: Box<Code> },
    /// `labeled_and` (`and`) or `labeled_or`.
    LabeledLogic { and: bool, left: Box<Code>, right: Box<Code> },
    /// `left op right`
    Binary { op: BinOp, left: Box<Code>, right: Box<Code> },
    /// `op operand`
    Unary { operator: usize, operand: Box<Code> },
    /// `base.member`
    Field { base: Box<Code>, member: usize },
    /// `base[index]`
    Index { base: Box<Code>, index: Box<Code> },
    /// `format!` with its arguments chained, the string labeled public.
    Format { template: usize, args: Vec<Code> },
    /// A macro refused under a secret program counter (`reject_side_effecting_macro`).
    RejectMacro(usize),
    /// `return value;`
    Return(Option<Box<Code>>),
    /// `[elems]`
    Array(Vec<Code>),
    /// `&operand` or `&mut operand`
    Reference { mutable: bool, operand: Box<Code> },
    /// A compile error: syntax that the rewrite refuses.
    Refused(usize),
    /// A compile error: `unchecked_operation` called without an argument.
    MissingArgument(usize),
    /// A compile error: a `format!` whose tokens do not read as a format string and values.
    UnreadableFormat(usize),
}

/// A generated statement.
#[derive(PartialEq, Eq, Debug)]
pub enum CodeStmt {
    /// An expression, with or without a trailing semicolon.
    Expr { code: Code, semi: bool },
    /// `let pattern = init;`
    Local { pattern: usize, init: Option<Code> },
    /// Tokens kept as written.
    Verbatim(usize),
    /// A macro statement refused under a secret program counter.
    RejectMacro { mac: usize, semi: bool },
}

} // verus!
