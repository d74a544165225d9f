//! The relabeling rewrite and the side-effect-free attribute.
use vstd::prelude::*;

verus! {

/// A relabeling: the value (kept as written) and the label it is to carry.
#[derive(PartialEq, Eq, Structural, Clone, Copy, Debug)]
pub struct RelabelInput {
    pub value: usize,
    /// Whether the value is written `&mut ..`.
    pub mutable_reference: bool,
    pub label: usize,
}

/// What the relabeling emits: the value (a raw value taken as public) checked to
/// flow to the label, then carrying it.
#[derive(PartialEq, Eq, Structural, Clone, Copy, Debug)]
pub struct RelabelPlan {
    pub value: usize,
    pub label: usize,
}

/// Why a relabeling is refused.
#[derive(PartialEq, Eq, Structural, Clone, Copy, Debug)]
pub enum RelabelError {
    /// A mutable reference cannot be relabeled; it carries the value to point at.
    MutableReference(usize),
}

/// Plans a relabeling; a mutable reference is refused.
pub fn relabel(input: &RelabelInput) -> (r: Result<RelabelPlan, RelabelError>)
    ensures
        input.mutable_reference ==> r == Err::<RelabelPlan, RelabelError>(
            RelabelError::MutableReference(input.value),
        ),
        !input.mutable_reference ==> r == Ok::<RelabelPlan, RelabelError>(
            RelabelPlan { value: input.value, label: input.label },
        ),
{
    if input.mutable_reference {
        Err(RelabelError::MutableReference(input.value))
    } else {
        Ok(RelabelPlan { value: input.value, label: input.label })
    }
}

/// An item under the side-effect-free attribute.
#[derive(PartialEq, Eq, Structural, Clone, Copy, Debug)]
pub enum AttrItem {
    /// A function, with its return type (`None` when it returns `()`).
    Function { item: usize, return_type: Option<usize> },
    /// A struct.
    Struct { item: usize },
    /// Any other item.
    Other(usize),
}

/// What the attribute emits.
#[derive(PartialEq, Eq, Structural, Clone, Copy, Debug)]
pub enum AttrPlan {
    /// The function returns `Vetted<T>` for its return type `T` (`()` when `None`),
    /// its body run in a closure whose result is wrapped.
    VettedFunction { item: usize, return_type: Option<usize> },
    /// The struct, followed by its `InvisibleSideEffectFree` impl.
    SideEffectFreeStruct(usize),
    /// The item as written.
    Unchanged(usize),
}

/// Plans the side-effect-free attribute on an item.
pub fn side_effect_free_attr(item: &AttrItem) -> (r: AttrPlan)
    ensures
        r == match *item {
            AttrItem::Function { item, return_type } => AttrPlan::VettedFunction {
                item,
                return_type,
            },
            AttrItem::Struct { item } => AttrPlan::SideEffectFreeStruct(item),
            AttrItem::Other(f) => AttrPlan::Unchanged(f),
        },
{
    match item {
        AttrItem::Function { item, return_type } => AttrPlan::VettedFunction {
            item: *item,
            return_type: *return_type,
        },
        AttrItem::Struct { item } => AttrPlan::SideEffectFreeStruct(*item),
        AttrItem::Other(f) => AttrPlan::Unchanged(*f),
    }
}

} // verus!
