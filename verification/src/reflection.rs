//! Read-only facade over the compiler's post-compilation shader
//! introspection data: types, layouts, variables, functions, entry points,
//! binding ranges, and descriptor sets, with lazy index/count iteration.
//!
//! Every record here stands for a foreign-owned reflection object, holding
//! as plain values what its accessors read; references into a record are
//! borrowed for the lifetime of the program layout that owns it, exactly as
//! the foreign objects are. Iteration never materializes a collection: each
//! child collection is walked through an (index, count) window.

use vstd::prelude::*;

pub mod kinds;
pub mod layout;
pub mod program;
pub mod types;

pub use kinds::BindingType;
pub use kinds::ParameterCategory;
pub use kinds::ScalarType;
pub use kinds::TypeKind;
pub use layout::BindingRangeInfo;
pub use layout::DescriptorRangeInfo;
pub use layout::DescriptorSetInfo;
pub use layout::OffsetEntry;
pub use layout::SizeEntry;
pub use layout::SubObjectRangeInfo;
pub use layout::TypeLayout;
pub use layout::TypeLayoutBindingRange;
pub use layout::TypeLayoutBindingRangeIterator;
pub use layout::TypeLayoutCategoryIterator;
pub use layout::TypeLayoutDescriptorSet;
pub use layout::TypeLayoutDescriptorSetDescriptorRange;
pub use layout::TypeLayoutDescriptorSetDescriptorRangeIterator;
pub use layout::TypeLayoutDescriptorSetIterator;
pub use layout::TypeLayoutFieldIterator;
pub use layout::TypeLayoutSubObjectRange;
pub use layout::TypeLayoutSubObjectRangeIterator;
pub use layout::VariableLayout;
pub use program::Decl;
pub use program::DeclChildrenIterator;
pub use program::DeclPayload;
pub use program::EntryPoint;
pub use program::EntryPointParameterIterator;
pub use program::Function;
pub use program::FunctionOverloadIterator;
pub use program::FunctionParameterIterator;
pub use program::FunctionUserAttributeIterator;
pub use program::Generic;
pub use program::GenericTypeParameterIterator;
pub use program::GenericValueParameterIterator;
pub use program::Shader;
pub use program::ShaderEntryPointIterator;
pub use program::ShaderParameterIterator;
pub use program::ShaderTypeParameterIterator;
pub use program::TypeParameter;
pub use program::TypeParameterConstraintIterator;
pub use types::Attribute;
pub use types::AttributeArgument;
pub use types::Modifier;
pub use types::Type;
pub use types::TypeFieldIterator;
pub use types::TypeUserAttributeIterator;
pub use types::Variable;
pub use types::VariableUserAttributeIterator;

verus! {

/// The indices an (index, count) iteration window has still to yield, in the
/// order it will yield them.
pub open spec fn spec_window(current: int, count: int) -> Seq<int> {
    Seq::new(
        if current <= count {
            (count - current) as nat
        } else {
            0
        },
        |i: int| current + i,
    )
}

/// Law of the iteration wrappers: a fresh (index, count) window yields
/// exactly `count` indices, in strictly increasing order, and constructing a
/// fresh window over the same pair yields the same indices again, so
/// iteration is safely restartable.
pub proof fn lemma_window_iteration(count: int)
    requires
        0 <= count,
    ensures
        spec_window(0, count).len() == count,
        forall|i: int| 0 <= i < count ==> spec_window(0, count)[i] == i,
        forall|i: int, j: int|
            0 <= i < j < count ==> spec_window(0, count)[i] < spec_window(0, count)[j],
{
}

/// Taking one step in an (index, count) window yields the front index and
/// leaves the window over the remaining indices.
pub proof fn lemma_window_step(current: int, count: int)
    requires
        0 <= current < count,
    ensures
        spec_window(current, count)[0] == current,
        spec_window(current + 1, count) == spec_window(current, count).drop_first(),
{
    assert(spec_window(current + 1, count) =~= spec_window(current, count).drop_first());
}

} // verus!
