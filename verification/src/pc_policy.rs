//! The rules by which the flow-checking rewrite treats the syntax it meets inside a
//! program-counter block: which binary operators it turns into labeled ones or
//! guarded assignments, which calls it trusts, and which macros it lets through.
use vstd::prelude::*;

verus! {

// ---------------------------------------------------------------------------
// Text helpers
// ---------------------------------------------------------------------------

/// `char::is_whitespace` of std: whether `c` has the Unicode `White_Space` property,
/// that is, whether it is one of the 25 code points U+0009 to U+000D, U+0020, U+0085,
/// U+00A0, U+1680, U+2000 to U+200A, U+2028, U+2029, U+202F, U+205F and U+3000.
pub open spec fn is_whitespace_char(c: char) -> bool {
    let u = c as u32;
    (0x9 <= u <= 0xd) || u == 0x20 || u == 0x85 || u == 0xa0 || u == 0x1680 || (0x2000 <= u
        <= 0x200a) || u == 0x2028 || u == 0x2029 || u == 0x202f || u == 0x205f || u == 0x3000
}

/// Whether `c` has the Unicode `White_Space` property, as `char::is_whitespace` of std
/// decides it.
fn char_is_whitespace(c: char) -> (r: bool)
    ensures
        r == is_whitespace_char(c),
{
    let u = c as u32;
    (0x9 <= u && u <= 0xd) || u == 0x20 || u == 0x85 || u == 0xa0 || u == 0x1680 || (0x2000 <= u
        && u <= 0x200a) || u == 0x2028 || u == 0x2029 || u == 0x202f || u == 0x205f || u
        == 0x3000
}

/// `text` with every whitespace character removed.
pub open spec fn strip_whitespace(text: Seq<char>) -> Seq<char> {
    text.filter(|c: char| !is_whitespace_char(c))
}

/// `pattern` occurs in `text` as a contiguous run of characters.
pub open spec fn contains_chars(text: Seq<char>, pattern: Seq<char>) -> bool {
    exists|i: int| 0 <= i <= text.len() - pattern.len() && #[trigger] text.subrange(i, i + pattern.len()) == pattern
}

/// The characters of `text`, in order.
pub(crate) fn chars_of(text: &str) -> (r: Vec<char>)
    ensures
        r@ == text@,
{
    let n = text.unicode_len();
    let mut out: Vec<char> = Vec::new();
    let mut i: usize = 0;
    while i < n
        invariant
            n == text@.len(),
            i <= n,
            out@ == text@.subrange(0, i as int),
        decreases n - i,
    {
        out.push(text.get_char(i));
        i = i + 1;
    }
    out
}

/// Whether `pattern` occurs in `text` at position `at`.
fn matches_at(text: &Vec<char>, pattern: &Vec<char>, at: usize) -> (r: bool)
    requires
        at + pattern@.len() <= text@.len(),
    ensures
        r == (text@.subrange(at as int, at + pattern@.len()) == pattern@),
{
    let n = text.len();
    let mut j: usize = 0;
    while j < pattern.len()
        invariant
            n == text@.len(),
            at + pattern@.len() <= text@.len(),
            j <= pattern@.len(),
            forall|k: int| 0 <= k < j ==> text@[at + k] == pattern@[k],
        decreases pattern@.len() - j,
    {
        if text[at + j] != pattern[j] {
            proof {
                assert(text@.subrange(at as int, at + pattern@.len())[j as int] != pattern@[j as int]);
            }
            return false;
        }
        j = j + 1;
    }
    proof {
        assert(text@.subrange(at as int, at + pattern@.len()) =~= pattern@);
    }
    true
}

/// Whether `pattern` occurs anywhere in `text`.
fn contains(text: &Vec<char>, pattern: &Vec<char>) -> (r: bool)
    ensures
        r == contains_chars(text@, pattern@),
{
    if pattern.len() > text.len() {
        return false;
    }
    let last = text.len() - pattern.len();
    let mut at: usize = 0;
    loop
        invariant
            last == text@.len() - pattern@.len(),
            pattern@.len() <= text@.len(),
            at <= last,
            forall|i: int| 0 <= i < at ==> #[trigger] text@.subrange(i, i + pattern@.len()) != pattern@,
        ensures
            forall|i: int| 0 <= i <= last ==> #[trigger] text@.subrange(i, i + pattern@.len()) != pattern@,
        decreases last - at,
    {
        if matches_at(text, pattern, at) {
            return true;
        }
        if at == last {
            break;
        }
        at = at + 1;
    }
    false
}

/// Whether two character sequences are equal.
pub(crate) fn same_chars(a: &Vec<char>, b: &Vec<char>) -> (r: bool)
    ensures
        r == (a@ == b@),
{
    if a.len() != b.len() {
        return false;
    }
    let r = matches_at(a, b, 0);
    proof {
        assert(a@.subrange(0, b@.len() as int) =~= a@);
    }
    r
}

/// Whether the character sequence `a` spells `b`.
fn same_text(a: &Vec<char>, b: &str) -> (r: bool)
    ensures
        r == (a@ == b@),
{
    same_chars(a, &chars_of(b))
}

// ---------------------------------------------------------------------------
// Binary operators
// ---------------------------------------------------------------------------

/// The binary operators of Rust expressions.
#[derive(PartialEq, Eq, Structural, Clone, Copy, Debug)]
pub enum BinOp {
    Add,
    Sub,
    Mul,
    Div,
    Rem,
    And,
    Or,
    BitXor,
    BitAnd,
    BitOr,
    Shl,
    Shr,
    Eq,
    Lt,
    Le,
    Ne,
    Ge,
    Gt,
    AddAssign,
    SubAssign,
    MulAssign,
    DivAssign,
    RemAssign,
    BitXorAssign,
    BitAndAssign,
    BitOrAssign,
    ShlAssign,
    ShrAssign,
}

/// Compound assignments (`+=` and the like) become guarded assignments.
pub fn is_compound_assign(op: BinOp) -> (r: bool)
    ensures
        r <==> (op is AddAssign || op is SubAssign || op is MulAssign || op is DivAssign
            || op is RemAssign || op is BitXorAssign || op is BitAndAssign || op is BitOrAssign
            || op is ShlAssign || op is ShrAssign),
{
    match op {
        BinOp::AddAssign | BinOp::SubAssign | BinOp::MulAssign | BinOp::DivAssign
        | BinOp::RemAssign | BinOp::BitXorAssign | BinOp::BitAndAssign | BinOp::BitOrAssign
        | BinOp::ShlAssign | BinOp::ShrAssign => true,
        _ => false,
    }
}

/// `==` and `!=` become labeled comparisons.
pub fn is_comparison_op(op: BinOp) -> (r: bool)
    ensures
        r <==> (op is Eq || op is Ne),
{
    match op {
        BinOp::Eq | BinOp::Ne => true,
        _ => false,
    }
}

/// `&&` and `||` become labeled logical operators.
pub fn is_logical_op(op: BinOp) -> (r: bool)
    ensures
        r <==> (op is And || op is Or),
{
    match op {
        BinOp::And | BinOp::Or => true,
        _ => false,
    }
}

// ---------------------------------------------------------------------------
// Trusted calls
// ---------------------------------------------------------------------------

/// The paths of the functions whose calls are trusted inside a program-counter block.
pub open spec fn allowlist() -> Seq<Seq<char>> {
    seq![
        "char::is_digit"@,
        "core::primitive::str::len"@,
        "std::clone::Clone::clone"@,
        "std::cmp::min"@,
        "std::cmp::max"@,
        "std::fs::File::open"@,
        "std::iter::Iterator::next"@,
        "std::iter::Iterator::take"@,
        "std::iter::zip"@,
        "std::option::Option::Some"@,
        "std::option::Option::unwrap"@,
        "std::string::String::clear"@,
        "std::string::String::from"@,
        "std::string::String::len"@,
        "std::time::Instant::now"@,
        "std::vec::Vec::new"@,
        "std::vec::Vec::push"@,
        "std::vec::Vec::len"@,
        "std::vec::Vec::with_capacity"@,
        "std::collections::HashMap::get"@,
        "std::collections::HashMap::insert"@,
        "std::collections::HashSet::insert"@,
        "str::to_string"@,
        "usize::to_string"@,
        "typing_rules::lattice::safe_add"@,
        "typing_rules::lattice::safe_sub"@,
        "Labeled::new"@,
        "typing_rules::lattice::Labeled::new"@,
    ]
}

/// The trusted paths, in the order of `allowlist`.
fn allowlist_entries() -> (r: Vec<&'static str>)
    ensures
        r@.map_values(|s: &str| s@) == allowlist(),
{
    let mut v: Vec<&'static str> = Vec::new();
    v.push("char::is_digit");
    v.push("core::primitive::str::len");
    v.push("std::clone::Clone::clone");
    v.push("std::cmp::min");
    v.push("std::cmp::max");
    v.push("std::fs::File::open");
    v.push("std::iter::Iterator::next");
    v.push("std::iter::Iterator::take");
    v.push("std::iter::zip");
    v.push("std::option::Option::Some");
    v.push("std::option::Option::unwrap");
    v.push("std::string::String::clear");
    v.push("std::string::String::from");
    v.push("std::string::String::len");
    v.push("std::time::Instant::now");
    v.push("std::vec::Vec::new");
    v.push("std::vec::Vec::push");
    v.push("std::vec::Vec::len");
    v.push("std::vec::Vec::with_capacity");
    v.push("std::collections::HashMap::get");
    v.push("std::collections::HashMap::insert");
    v.push("std::collections::HashSet::insert");
    v.push("str::to_string");
    v.push("usize::to_string");
    v.push("typing_rules::lattice::safe_add");
    v.push("typing_rules::lattice::safe_sub");
    v.push("Labeled::new");
    v.push("typing_rules::lattice::Labeled::new");
    assert(v@.map_values(|s: &str| s@) =~= allowlist());
    v
}

/// `text` without its whitespace.
fn without_whitespace(text: &str) -> (r: Vec<char>)
    ensures
        r@ == strip_whitespace(text@),
{
    let chars = chars_of(text);
    let mut out: Vec<char> = Vec::new();
    let mut i: usize = 0;
    while i < chars.len()
        invariant
            chars@ == text@,
            i <= chars@.len(),
            out@ == strip_whitespace(text@.subrange(0, i as int)),
        decreases chars@.len() - i,
    {
        let c = chars[i];
        proof {
            let prefix = text@.subrange(0, i as int);
            assert(text@.subrange(0, i + 1) =~= prefix.push(c));
            reveal_with_fuel(Seq::filter, 1);
            assert(prefix.push(c).drop_last() =~= prefix);
        }
        if !char_is_whitespace(c) {
            out.push(c);
        }
        i = i + 1;
    }
    proof {
        assert(text@.subrange(0, chars@.len() as int) =~= text@);
    }
    out
}

/// Whether a call is trusted inside a program-counter block: the callee must be a
/// path (`Some` of its text), and that text, without whitespace, must be on the
/// allowlist.
pub fn is_call_to_allowlisted_function(callee_path: Option<&str>) -> (r: bool)
    ensures
        r == (callee_path matches Some(p) && allowlist().contains(strip_whitespace(p@))),
{
    match callee_path {
        None => false,
        Some(path) => {
            let stripped = without_whitespace(path);
            let entries = allowlist_entries();
            let mut i: usize = 0;
            while i < entries.len()
                invariant
                    entries@.map_values(|s: &str| s@) == allowlist(),
                    i <= entries@.len(),
                    stripped@ == strip_whitespace(path@),
                    callee_path == Some(path),
                    forall|k: int| 0 <= k < i ==> allowlist()[k] != stripped@,
                decreases entries@.len() - i,
            {
                let found = same_text(&stripped, entries[i]);
                proof {
                    assert(entries@.map_values(|s: &str| s@)[i as int] == entries@[i as int]@);
                }
                if found {
                    proof {
                        assert(allowlist().len() == entries@.len());
                        assert(allowlist()[i as int] == stripped@);
                        assert(allowlist().contains(stripped@));
                    }
                    return true;
                }
                i = i + 1;
            }
            false
        },
    }
}

/// A call of `unchecked_operation`: its argument is left as written.
pub fn is_unchecked_operation_call(callee: &str) -> (r: bool)
    ensures
        r == contains_chars(callee@, "unchecked_operation"@),
{
    contains(&chars_of(callee), &chars_of("unchecked_operation"))
}

/// A call of `Labeled::new` (the callee's text holds both `Labeled` and `new`).
pub fn is_labeled_new_call(callee: &str) -> (r: bool)
    ensures
        r == (contains_chars(callee@, "Labeled"@) && contains_chars(callee@, "new"@)),
{
    let text = chars_of(callee);
    contains(&text, &chars_of("Labeled")) && contains(&text, &chars_of("new"))
}

/// A call of `Labeled::new` without a label given by turbofish (no `<` in the
/// callee's text): the label is taken from the assignment's destination.
pub fn is_labeled_new_without_turbofish(callee: &str) -> (r: bool)
    ensures
        r == (contains_chars(callee@, "Labeled"@) && contains_chars(callee@, "new"@)
            && !contains_chars(callee@, "<"@)),
{
    let text = chars_of(callee);
    contains(&text, &chars_of("Labeled")) && contains(&text, &chars_of("new")) && !contains(
        &text,
        &chars_of("<"),
    )
}

// ---------------------------------------------------------------------------
// Macros
// ---------------------------------------------------------------------------

/// How the rewrite treats a macro invocation inside a program-counter block.
#[derive(PartialEq, Eq, Structural, Clone, Copy)]
pub enum MacroTreatment {
    /// Left as written: the macro checks its own flows, or has no visible side effect.
    PassThrough,
    /// `format!` in an expression: its arguments are chained and the string is labeled public.
    FormatArguments,
    /// Any other macro: refused to compile under a secret program counter.
    RejectUnderSecretPc,
}

/// The macros that check their own flows, and `panic`.
pub open spec fn is_self_checking_macro(name: Seq<char>) -> bool {
    name == "fcall"@ || name == "mcall"@ || name == "relabel"@ || name == "pc_block"@ || name
        == "panic"@
}

/// The treatment of a macro used as an expression, by the last segment of its path.
pub fn macro_in_expression(name: &str) -> (r: MacroTreatment)
    ensures
        r == (if is_self_checking_macro(name@) {
            MacroTreatment::PassThrough
        } else if name@ == "format"@ {
            MacroTreatment::FormatArguments
        } else {
            MacroTreatment::RejectUnderSecretPc
        }),
{
    let text = chars_of(name);
    if same_text(&text, "fcall") || same_text(&text, "mcall") || same_text(&text, "relabel")
        || same_text(&text, "pc_block") || same_text(&text, "panic") {
        MacroTreatment::PassThrough
    } else if same_text(&text, "format") {
        MacroTreatment::FormatArguments
    } else {
        MacroTreatment::RejectUnderSecretPc
    }
}

/// The treatment of a macro used as a statement, by the last segment of its path:
/// here `format!` is left as written too.
pub fn macro_in_statement(name: &str) -> (r: MacroTreatment)
    ensures
        r == (if is_self_checking_macro(name@) || name@ == "format"@ {
            MacroTreatment::PassThrough
        } else {
            MacroTreatment::RejectUnderSecretPc
        }),
{
    let text = chars_of(name);
    if same_text(&text, "fcall") || same_text(&text, "mcall") || same_text(&text, "relabel")
        || same_text(&text, "pc_block") || same_text(&text, "panic") || same_text(&text, "format") {
        MacroTreatment::PassThrough
    } else {
        MacroTreatment::RejectUnderSecretPc
    }
}

} // verus!
