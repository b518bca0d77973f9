//! Reflected type layouts: per-category sizes and offsets, field layouts,
//! binding ranges, descriptor sets, and sub-object ranges, with borrowed
//! range views and index/count iteration over every child collection.

use vstd::prelude::*;

use crate::abi::SlangImageFormat;
use crate::abi::SlangMatrixLayoutMode;
use crate::abi::SlangModifierID;
use crate::abi::SlangResourceAccess;
use crate::abi::SlangResourceShape;
use crate::abi::SlangStage;
use crate::reflection::kinds::BindingType;
use crate::reflection::kinds::ParameterCategory;
use crate::reflection::kinds::ScalarType;
use crate::reflection::kinds::TypeKind;
use crate::reflection::lemma_window_step;
use crate::reflection::program::Shader;
use crate::reflection::spec_window;
use crate::reflection::types::Modifier;
use crate::reflection::types::Type;
use crate::reflection::types::Variable;

verus! {

/// Per-category resource usage of a type layout: how many bytes or slots of
/// the category the type takes, its array stride, and its alignment.
pub struct SizeEntry {
    pub category: ParameterCategory,
    pub size: usize,
    pub stride: usize,
    pub alignment: i32,
    pub element_stride: usize,
}

/// Per-category placement of a variable layout: where the variable starts,
/// counted in the category's own units, and in which space.
pub struct OffsetEntry {
    pub category: ParameterCategory,
    pub offset: usize,
    pub space: usize,
}

/// One binding range of a type layout: a run of bindings of one kind.
pub struct BindingRangeInfo {
    pub binding_type: BindingType,
    pub specializable: bool,
    pub binding_count: i64,
    pub leaf_type_layout: Option<Box<TypeLayout>>,
    pub leaf_variable: Option<Box<Variable>>,
    pub image_format: SlangImageFormat,
    pub descriptor_set_index: i64,
    pub first_descriptor_range_index: i64,
    pub descriptor_range_count: i64,
}

/// One descriptor range inside a descriptor set.
pub struct DescriptorRangeInfo {
    pub index_offset: i64,
    pub descriptor_count: i64,
    pub binding_type: BindingType,
    pub category: ParameterCategory,
}

/// One descriptor set computed for a type layout.
pub struct DescriptorSetInfo {
    pub space_offset: i64,
    pub ranges: Vec<DescriptorRangeInfo>,
}

/// One sub-object range of a type layout: where a nested parameter block or
/// constant buffer lands.
pub struct SubObjectRangeInfo {
    pub binding_range_index: i64,
    pub space_offset: i64,
    pub offset: Option<Box<VariableLayout>>,
}

/// The layout the compiler computed for one type: the type itself, its
/// fields laid out, its per-category sizes, and its binding metadata.
pub struct TypeLayout {
    pub ty: Box<Type>,
    pub fields: Vec<VariableLayout>,
    pub sizes: Vec<SizeEntry>,
    pub categories: Vec<ParameterCategory>,
    pub parameter_category: ParameterCategory,
    pub matrix_layout_mode: SlangMatrixLayoutMode,
    pub generic_param_index: i32,
    pub element_type_layout: Option<Box<TypeLayout>>,
    pub element_var_layout: Option<Box<VariableLayout>>,
    pub container_var_layout: Option<Box<VariableLayout>>,
    pub explicit_counter: Option<Box<VariableLayout>>,
    pub explicit_counter_binding_range_offset: i64,
    pub pending_data_type_layout: Option<Box<TypeLayout>>,
    pub specialized_type_pending_data_var_layout: Option<Box<VariableLayout>>,
    pub binding_ranges: Vec<BindingRangeInfo>,
    pub descriptor_sets: Vec<DescriptorSetInfo>,
    pub sub_object_ranges: Vec<SubObjectRangeInfo>,
}

/// The first per-category size entry for `category`, absent when the layout
/// uses no resource of that category.
pub fn find_size_entry<'x>(sizes: &'x Vec<SizeEntry>, category: ParameterCategory) -> (r: Option<
    &'x SizeEntry,
>)
    ensures
        r matches Some(e) ==> exists|i: int|
            0 <= i < sizes@.len() && e == &sizes@[i] && e.category == category,
        r is None ==> forall|i: int|
            0 <= i < sizes@.len() ==> (#[trigger] sizes@[i]).category != category,
{
    let n = sizes.len();
    let mut i: usize = 0;
    while i < n
        invariant
            n == sizes@.len(),
            i <= n,
            forall|j: int| 0 <= j < i ==> (#[trigger] sizes@[j]).category != category,
        decreases n - i,
    {
        if sizes[i].category == category {
            return Some(&sizes[i]);
        }
        i = i + 1;
    }
    None
}

/// The first per-category offset entry for `category`, absent when the
/// variable occupies no resource of that category.
pub fn find_offset_entry<'x>(offsets: &'x Vec<OffsetEntry>, category: ParameterCategory) -> (r:
    Option<&'x OffsetEntry>)
    ensures
        r matches Some(e) ==> exists|i: int|
            0 <= i < offsets@.len() && e == &offsets@[i] && e.category == category,
        r is None ==> forall|i: int|
            0 <= i < offsets@.len() ==> (#[trigger] offsets@[i]).category != category,
{
    let n = offsets.len();
    let mut i: usize = 0;
    while i < n
        invariant
            n == offsets@.len(),
            i <= n,
            forall|j: int| 0 <= j < i ==> (#[trigger] offsets@[j]).category != category,
        decreases n - i,
    {
        if offsets[i].category == category {
            return Some(&offsets[i]);
        }
        i = i + 1;
    }
    None
}

impl TypeLayout {
    /// The type this layout was computed for.
    pub fn ty(&self) -> (r: &Type)
        ensures
            r == &*self.ty,
    {
        &*self.ty
    }

    /// What sort of type was laid out.
    pub fn kind(&self) -> (r: TypeKind)
        ensures
            r == self.ty.kind,
    {
        self.ty.kind
    }

    /// How many bytes or slots of `category` the type takes; zero when the
    /// type uses no resource of that category.
    pub fn size(&self, category: ParameterCategory) -> (r: usize)
        ensures
            (forall|i: int|
                0 <= i < self.sizes@.len() ==> (#[trigger] self.sizes@[i]).category
                    != category) ==> r == 0,
            (exists|i: int|
                0 <= i < self.sizes@.len() && (#[trigger] self.sizes@[i]).category
                    == category) ==> exists|i: int|
                0 <= i < self.sizes@.len() && (#[trigger] self.sizes@[i]).category
                    == category && r == self.sizes@[i].size,
    {
        match find_size_entry(&self.sizes, category) {
            Some(e) => e.size,
            None => 0,
        }
    }

    /// The array stride of the type in `category`; zero when the type uses
    /// no resource of that category.
    pub fn stride(&self, category: ParameterCategory) -> (r: usize)
        ensures
            (forall|i: int|
                0 <= i < self.sizes@.len() ==> (#[trigger] self.sizes@[i]).category
                    != category) ==> r == 0,
            (exists|i: int|
                0 <= i < self.sizes@.len() && (#[trigger] self.sizes@[i]).category
                    == category) ==> exists|i: int|
                0 <= i < self.sizes@.len() && (#[trigger] self.sizes@[i]).category
                    == category && r == self.sizes@[i].stride,
    {
        match find_size_entry(&self.sizes, category) {
            Some(e) => e.stride,
            None => 0,
        }
    }

    /// The alignment of the type in `category`; zero when the type uses no
    /// resource of that category.
    pub fn alignment(&self, category: ParameterCategory) -> (r: i32)
        ensures
            (forall|i: int|
                0 <= i < self.sizes@.len() ==> (#[trigger] self.sizes@[i]).category
                    != category) ==> r == 0,
            (exists|i: int|
                0 <= i < self.sizes@.len() && (#[trigger] self.sizes@[i]).category
                    == category) ==> exists|i: int|
                0 <= i < self.sizes@.len() && (#[trigger] self.sizes@[i]).category
                    == category && r == self.sizes@[i].alignment,
    {
        match find_size_entry(&self.sizes, category) {
            Some(e) => e.alignment,
            None => 0,
        }
    }

    /// The element stride of the type in `category`; zero when the type uses
    /// no resource of that category.
    pub fn element_stride(&self, category: ParameterCategory) -> (r: usize)
        ensures
            (forall|i: int|
                0 <= i < self.sizes@.len() ==> (#[trigger] self.sizes@[i]).category
                    != category) ==> r == 0,
            (exists|i: int|
                0 <= i < self.sizes@.len() && (#[trigger] self.sizes@[i]).category
                    == category) ==> exists|i: int|
                0 <= i < self.sizes@.len() && (#[trigger] self.sizes@[i]).category
                    == category && r == self.sizes@[i].element_stride,
    {
        match find_size_entry(&self.sizes, category) {
            Some(e) => e.element_stride,
            None => 0,
        }
    }

    /// How many fields the laid-out type has.
    pub fn field_count(&self) -> (r: usize)
        ensures
            r == self.fields@.len(),
    {
        self.fields.len()
    }

    /// The field layout at `index`, absent when the index is out of range.
    pub fn field(&self, index: usize) -> (r: Option<&VariableLayout>)
        ensures
            index < self.fields@.len() ==> r == Some(&self.fields@[index as int]),
            index >= self.fields@.len() ==> r is None,
    {
        if index < self.fields.len() {
            Some(&self.fields[index])
        } else {
            None
        }
    }

    /// A fresh iteration window over the field layouts.
    pub fn iter_field<'x>(&'x self) -> (r: TypeLayoutFieldIterator<'x>)
        ensures
            r.refl == self,
            r.current == 0,
            r.count == self.fields@.len(),
            r.spec_wf(),
    {
        TypeLayoutFieldIterator { refl: self, current: 0, count: self.fields.len() }
    }

    /// The index of the first field with the given name, or minus one when
    /// no field carries it.
    pub fn find_field_index_by_name(&self, name: &String) -> (r: i64)
        requires
            self.fields@.len() <= 0x7fff_ffff_ffff_ffff,
        ensures
            r >= 0 ==> 0 <= r < self.fields@.len() && self.fields@[r as int].variable.name@
                == name@,
            r < 0 ==> r == -1 && forall|j: int|
                0 <= j < self.fields@.len() ==> (#[trigger] self.fields@[j]).variable.name@
                    != name@,
    {
        let n = self.fields.len();
        let mut i: usize = 0;
        while i < n
            invariant
                n == self.fields@.len(),
                n <= 0x7fff_ffff_ffff_ffff,
                i <= n,
                forall|j: int| 0 <= j < i ==> (#[trigger] self.fields@[j]).variable.name@ != name@,
            decreases n - i,
        {
            if self.fields[i].variable.name == *name {
                return i as i64;
            }
            i = i + 1;
        }
        -1
    }

    /// The layout's explicit counter variable, absent when the type has
    /// none.
    pub fn explicit_counter(&self) -> (r: Option<&VariableLayout>)
        ensures
            self.explicit_counter matches Some(v) ==> r == Some(&*v),
            self.explicit_counter is None ==> r is None,
    {
        match &self.explicit_counter {
            Some(v) => Some(&*v),
            None => None,
        }
    }

    /// Where the explicit counter lands among the binding ranges.
    pub fn explicit_counter_binding_range_offset(&self) -> (r: i64)
        ensures
            r == self.explicit_counter_binding_range_offset,
    {
        self.explicit_counter_binding_range_offset
    }

    /// The layout of the pending specialization data, absent when the type
    /// carries none.
    pub fn pending_data_type_layout(&self) -> (r: Option<&TypeLayout>)
        ensures
            self.pending_data_type_layout matches Some(t) ==> r == Some(&*t),
            self.pending_data_type_layout is None ==> r is None,
    {
        match &self.pending_data_type_layout {
            Some(t) => Some(&*t),
            None => None,
        }
    }

    /// The variable layout of the specialized type's pending data, absent
    /// when the type carries none.
    pub fn specialized_type_pending_data_var_layout(&self) -> (r: Option<&VariableLayout>)
        ensures
            self.specialized_type_pending_data_var_layout matches Some(v) ==> r == Some(&*v),
            self.specialized_type_pending_data_var_layout is None ==> r is None,
    {
        match &self.specialized_type_pending_data_var_layout {
            Some(v) => Some(&*v),
            None => None,
        }
    }

    /// How many elements the laid-out array type has; the program layout
    /// argument is what resolves a specialization-dependent count in the
    /// foreign library.
    pub fn element_count(&self, reflection: Option<&Shader>) -> (r: usize)
        ensures
            r == self.ty.element_count,
    {
        self.ty.element_count(reflection)
    }

    /// The layout of the element type, absent when the type has none.
    pub fn element_type_layout(&self) -> (r: Option<&TypeLayout>)
        ensures
            self.element_type_layout matches Some(t) ==> r == Some(&*t),
            self.element_type_layout is None ==> r is None,
    {
        match &self.element_type_layout {
            Some(t) => Some(&*t),
            None => None,
        }
    }

    /// The layout of the element variable, absent when the type has none.
    pub fn element_var_layout(&self) -> (r: Option<&VariableLayout>)
        ensures
            self.element_var_layout matches Some(v) ==> r == Some(&*v),
            self.element_var_layout is None ==> r is None,
    {
        match &self.element_var_layout {
            Some(v) => Some(&*v),
            None => None,
        }
    }

    /// The layout of the container variable, absent when the type has none.
    pub fn container_var_layout(&self) -> (r: Option<&VariableLayout>)
        ensures
            self.container_var_layout matches Some(v) ==> r == Some(&*v),
            self.container_var_layout is None ==> r is None,
    {
        match &self.container_var_layout {
            Some(v) => Some(&*v),
            None => None,
        }
    }

    /// The single category the whole type is counted against.
    pub fn parameter_category(&self) -> (r: ParameterCategory)
        ensures
            r == self.parameter_category,
    {
        self.parameter_category
    }

    /// How many categories the type uses resources of.
    pub fn category_count(&self) -> (r: usize)
        ensures
            r == self.categories@.len(),
    {
        self.categories.len()
    }

    /// The category at `index`.
    pub fn category(&self, index: usize) -> (r: ParameterCategory)
        requires
            index < self.categories@.len(),
        ensures
            r == self.categories@[index as int],
    {
        self.categories[index]
    }

    /// A fresh iteration window over the categories.
    pub fn iter_category<'x>(&'x self) -> (r: TypeLayoutCategoryIterator<'x>)
        ensures
            r.refl == self,
            r.current == 0,
            r.count == self.categories@.len(),
            r.spec_wf(),
    {
        TypeLayoutCategoryIterator { refl: self, current: 0, count: self.categories.len() }
    }

    /// How many rows the laid-out matrix type has.
    pub fn row_count(&self) -> (r: u32)
        ensures
            r == self.ty.row_count,
    {
        self.ty.row_count()
    }

    /// How many columns the laid-out matrix or vector type has.
    pub fn column_count(&self) -> (r: u32)
        ensures
            r == self.ty.column_count,
    {
        self.ty.column_count()
    }

    /// The scalar classification of the laid-out type.
    pub fn scalar_type(&self) -> (r: ScalarType)
        ensures
            r == self.ty.scalar,
    {
        self.ty.scalar_type()
    }

    /// The result type of the laid-out resource type, absent for other
    /// types.
    pub fn resource_result_type(&self) -> (r: Option<&Type>)
        ensures
            self.ty.resource_result_type matches Some(t) ==> r == Some(&*t),
            self.ty.resource_result_type is None ==> r is None,
    {
        self.ty.resource_result_type()
    }

    /// The shape classification of the laid-out resource type.
    pub fn resource_shape(&self) -> (r: SlangResourceShape)
        ensures
            r == self.ty.resource_shape,
    {
        self.ty.resource_shape()
    }

    /// The access classification of the laid-out resource type.
    pub fn resource_access(&self) -> (r: SlangResourceAccess)
        ensures
            r == self.ty.resource_access,
    {
        self.ty.resource_access()
    }

    /// Name of the laid-out type.
    pub fn name(&self) -> (r: &String)
        ensures
            r@ == self.ty.name@,
    {
        self.ty.name()
    }

    /// The matrix layout convention the layout was computed under.
    pub fn matrix_layout_mode(&self) -> (r: SlangMatrixLayoutMode)
        ensures
            r == self.matrix_layout_mode,
    {
        self.matrix_layout_mode
    }

    /// The index of the generic parameter this layout stands for, or a
    /// negative value when it stands for none.
    pub fn generic_param_index(&self) -> (r: i32)
        ensures
            r == self.generic_param_index,
    {
        self.generic_param_index
    }

    /// How many binding ranges the layout has.
    pub fn binding_range_count(&self) -> (r: usize)
        ensures
            r == self.binding_ranges@.len(),
    {
        self.binding_ranges.len()
    }

    /// The binding classification of the range at `index`.
    pub fn binding_range_type(&self, index: usize) -> (r: BindingType)
        requires
            index < self.binding_ranges@.len(),
        ensures
            r == self.binding_ranges@[index as int].binding_type,
    {
        self.binding_ranges[index].binding_type
    }

    /// Whether the range at `index` can be specialized.
    pub fn is_binding_range_specializable(&self, index: usize) -> (r: bool)
        requires
            index < self.binding_ranges@.len(),
        ensures
            r == self.binding_ranges@[index as int].specializable,
    {
        self.binding_ranges[index].specializable
    }

    /// How many bindings the range at `index` covers.
    pub fn binding_range_binding_count(&self, index: usize) -> (r: i64)
        requires
            index < self.binding_ranges@.len(),
        ensures
            r == self.binding_ranges@[index as int].binding_count,
    {
        self.binding_ranges[index].binding_count
    }

    /// The leaf type layout of the range at `index`, absent when the range
    /// has none.
    pub fn binding_range_leaf_type_layout(&self, index: usize) -> (r: Option<&TypeLayout>)
        requires
            index < self.binding_ranges@.len(),
        ensures
            self.binding_ranges@[index as int].leaf_type_layout matches Some(t) ==> r == Some(&*t),
            self.binding_ranges@[index as int].leaf_type_layout is None ==> r is None,
    {
        match &self.binding_ranges[index].leaf_type_layout {
            Some(t) => Some(&*t),
            None => None,
        }
    }

    /// The leaf variable of the range at `index`, absent when the range has
    /// none.
    pub fn binding_range_leaf_variable(&self, index: usize) -> (r: Option<&Variable>)
        requires
            index < self.binding_ranges@.len(),
        ensures
            self.binding_ranges@[index as int].leaf_variable matches Some(v) ==> r == Some(&*v),
            self.binding_ranges@[index as int].leaf_variable is None ==> r is None,
    {
        match &self.binding_ranges[index].leaf_variable {
            Some(v) => Some(&*v),
            None => None,
        }
    }

    /// The image format of the range at `index`.
    pub fn binding_range_image_format(&self, index: usize) -> (r: SlangImageFormat)
        requires
            index < self.binding_ranges@.len(),
        ensures
            r == self.binding_ranges@[index as int].image_format,
    {
        self.binding_ranges[index].image_format
    }

    /// Which descriptor set the range at `index` lands in.
    pub fn binding_range_descriptor_set_index(&self, index: usize) -> (r: i64)
        requires
            index < self.binding_ranges@.len(),
        ensures
            r == self.binding_ranges@[index as int].descriptor_set_index,
    {
        self.binding_ranges[index].descriptor_set_index
    }

    /// The first descriptor range of the range at `index`.
    pub fn binding_range_first_descriptor_range_index(&self, index: usize) -> (r: i64)
        requires
            index < self.binding_ranges@.len(),
        ensures
            r == self.binding_ranges@[index as int].first_descriptor_range_index,
    {
        self.binding_ranges[index].first_descriptor_range_index
    }

    /// How many descriptor ranges the range at `index` covers.
    pub fn binding_range_descriptor_range_count(&self, index: usize) -> (r: i64)
        requires
            index < self.binding_ranges@.len(),
        ensures
            r == self.binding_ranges@[index as int].descriptor_range_count,
    {
        self.binding_ranges[index].descriptor_range_count
    }

    /// A fresh iteration window over the binding ranges.
    pub fn iter_binding_range<'x>(&'x self) -> (r: TypeLayoutBindingRangeIterator<'x>)
        ensures
            r.refl == self,
            r.current == 0,
            r.count == self.binding_ranges@.len(),
            r.spec_wf(),
    {
        TypeLayoutBindingRangeIterator { refl: self, current: 0, count: self.binding_ranges.len() }
    }

    /// How many descriptor sets the layout computed.
    pub fn descriptor_set_count(&self) -> (r: usize)
        ensures
            r == self.descriptor_sets@.len(),
    {
        self.descriptor_sets.len()
    }

    /// The space offset of the set at `set_index`.
    pub fn descriptor_set_space_offset(&self, set_index: usize) -> (r: i64)
        requires
            set_index < self.descriptor_sets@.len(),
        ensures
            r == self.descriptor_sets@[set_index as int].space_offset,
    {
        self.descriptor_sets[set_index].space_offset
    }

    /// How many descriptor ranges the set at `set_index` holds.
    pub fn descriptor_set_descriptor_range_count(&self, set_index: usize) -> (r: usize)
        requires
            set_index < self.descriptor_sets@.len(),
        ensures
            r == self.descriptor_sets@[set_index as int].ranges@.len(),
    {
        self.descriptor_sets[set_index].ranges.len()
    }

    /// The index offset of one descriptor range of one set.
    pub fn descriptor_set_descriptor_range_index_offset(
        &self,
        set_index: usize,
        range_index: usize,
    ) -> (r: i64)
        requires
            set_index < self.descriptor_sets@.len(),
            range_index < self.descriptor_sets@[set_index as int].ranges@.len(),
        ensures
            r == self.descriptor_sets@[set_index as int].ranges@[range_index as int].index_offset,
    {
        self.descriptor_sets[set_index].ranges[range_index].index_offset
    }

    /// How many descriptors one descriptor range of one set covers.
    pub fn descriptor_set_descriptor_range_descriptor_count(
        &self,
        set_index: usize,
        range_index: usize,
    ) -> (r: i64)
        requires
            set_index < self.descriptor_sets@.len(),
            range_index < self.descriptor_sets@[set_index as int].ranges@.len(),
        ensures
            r == self.descriptor_sets@[set_index as int].ranges@[range_index as int].descriptor_count,
    {
        self.descriptor_sets[set_index].ranges[range_index].descriptor_count
    }

    /// The binding classification of one descriptor range of one set.
    pub fn descriptor_set_descriptor_range_type(&self, set_index: usize, range_index: usize) -> (r:
        BindingType)
        requires
            set_index < self.descriptor_sets@.len(),
            range_index < self.descriptor_sets@[set_index as int].ranges@.len(),
        ensures
            r == self.descriptor_sets@[set_index as int].ranges@[range_index as int].binding_type,
    {
        self.descriptor_sets[set_index].ranges[range_index].binding_type
    }

    /// The category of one descriptor range of one set.
    pub fn descriptor_set_descriptor_range_category(
        &self,
        set_index: usize,
        range_index: usize,
    ) -> (r: ParameterCategory)
        requires
            set_index < self.descriptor_sets@.len(),
            range_index < self.descriptor_sets@[set_index as int].ranges@.len(),
        ensures
            r == self.descriptor_sets@[set_index as int].ranges@[range_index as int].category,
    {
        self.descriptor_sets[set_index].ranges[range_index].category
    }

    /// A fresh iteration window over the descriptor sets.
    pub fn iter_descriptor_set<'x>(&'x self) -> (r: TypeLayoutDescriptorSetIterator<'x>)
        ensures
            r.refl == self,
            r.current == 0,
            r.count == self.descriptor_sets@.len(),
            r.spec_wf(),
    {
        TypeLayoutDescriptorSetIterator { refl: self, current: 0, count: self.descriptor_sets.len() }
    }

    /// How many sub-object ranges the layout has.
    pub fn sub_object_range_count(&self) -> (r: usize)
        ensures
            r == self.sub_object_ranges@.len(),
    {
        self.sub_object_ranges.len()
    }

    /// Which binding range the sub-object range at `index` begins at.
    pub fn sub_object_range_binding_range_index(&self, index: usize) -> (r: i64)
        requires
            index < self.sub_object_ranges@.len(),
        ensures
            r == self.sub_object_ranges@[index as int].binding_range_index,
    {
        self.sub_object_ranges[index].binding_range_index
    }

    /// The space offset of the sub-object range at `index`.
    pub fn sub_object_range_space_offset(&self, index: usize) -> (r: i64)
        requires
            index < self.sub_object_ranges@.len(),
        ensures
            r == self.sub_object_ranges@[index as int].space_offset,
    {
        self.sub_object_ranges[index].space_offset
    }

    /// The offset variable layout of the sub-object range at `index`, absent
    /// when the range has none.
    pub fn sub_object_range_offset(&self, index: usize) -> (r: Option<&VariableLayout>)
        requires
            index < self.sub_object_ranges@.len(),
        ensures
            self.sub_object_ranges@[index as int].offset matches Some(v) ==> r == Some(&*v),
            self.sub_object_ranges@[index as int].offset is None ==> r is None,
    {
        match &self.sub_object_ranges[index].offset {
            Some(v) => Some(&*v),
            None => None,
        }
    }

    /// A fresh iteration window over the sub-object ranges.
    pub fn iter_sub_object_range<'x>(&'x self) -> (r: TypeLayoutSubObjectRangeIterator<'x>)
        ensures
            r.refl == self,
            r.current == 0,
            r.count == self.sub_object_ranges@.len(),
            r.spec_wf(),
    {
        TypeLayoutSubObjectRangeIterator {
            refl: self,
            current: 0,
            count: self.sub_object_ranges.len(),
        }
    }
}

/// The layout the compiler computed for one variable: the variable, its
/// type's layout, and where it lands in every category it occupies.
pub struct VariableLayout {
    pub variable: Box<Variable>,
    pub type_layout: Box<TypeLayout>,
    pub offsets: Vec<OffsetEntry>,
    pub binding_index: u32,
    pub binding_space: u32,
    pub image_format: SlangImageFormat,
    pub semantic_name: Option<String>,
    pub semantic_index: usize,
    pub stage: SlangStage,
    pub pending_data_layout: Option<Box<VariableLayout>>,
}

impl VariableLayout {
    /// The variable this layout was computed for.
    pub fn variable(&self) -> (r: &Variable)
        ensures
            r == &*self.variable,
    {
        &*self.variable
    }

    /// Name of the laid-out variable.
    pub fn name(&self) -> (r: &String)
        ensures
            r@ == self.variable.name@,
    {
        self.variable.name()
    }

    /// The modifier with the given identifier on the laid-out variable,
    /// absent when it carries none.
    pub fn find_modifier(&self, id: SlangModifierID) -> (r: Option<&Modifier>)
        ensures
            r matches Some(m) ==> exists|i: int|
                0 <= i < self.variable.modifiers@.len() && m == &self.variable.modifiers@[i]
                    && m.id == id,
            r is None ==> forall|i: int|
                0 <= i < self.variable.modifiers@.len() ==> (
                #[trigger] self.variable.modifiers@[i]).id != id,
    {
        self.variable.find_modifier(id)
    }

    /// The layout of the variable's type.
    pub fn type_layout(&self) -> (r: &TypeLayout)
        ensures
            r == &*self.type_layout,
    {
        &*self.type_layout
    }

    /// The single category the variable is counted against.
    pub fn category(&self) -> (r: ParameterCategory)
        ensures
            r == self.type_layout.parameter_category,
    {
        self.type_layout.parameter_category()
    }

    /// How many categories the variable uses resources of.
    pub fn category_count(&self) -> (r: usize)
        ensures
            r == self.type_layout.categories@.len(),
    {
        self.type_layout.category_count()
    }

    /// The category at `index`.
    pub fn category_by_index(&self, index: usize) -> (r: ParameterCategory)
        requires
            index < self.type_layout.categories@.len(),
        ensures
            r == self.type_layout.categories@[index as int],
    {
        self.type_layout.category(index)
    }

    /// A fresh iteration window over the categories of the variable's type
    /// layout.
    pub fn iter_category<'x>(&'x self) -> (r: TypeLayoutCategoryIterator<'x>)
        ensures
            r.refl == &*self.type_layout,
            r.current == 0,
            r.count == self.type_layout.categories@.len(),
            r.spec_wf(),
    {
        self.type_layout.iter_category()
    }

    /// Where the variable starts in `category`, in the category's own units;
    /// zero when the variable occupies no resource of that category.
    pub fn offset(&self, category: ParameterCategory) -> (r: usize)
        ensures
            (forall|i: int|
                0 <= i < self.offsets@.len() ==> (#[trigger] self.offsets@[i]).category
                    != category) ==> r == 0,
            (exists|i: int|
                0 <= i < self.offsets@.len() && (#[trigger] self.offsets@[i]).category
                    == category) ==> exists|i: int|
                0 <= i < self.offsets@.len() && (#[trigger] self.offsets@[i]).category
                    == category && r == self.offsets@[i].offset,
    {
        match find_offset_entry(&self.offsets, category) {
            Some(e) => e.offset,
            None => 0,
        }
    }

    /// Which space the variable lands in for `category`; zero when the
    /// variable occupies no resource of that category.
    pub fn space(&self, category: ParameterCategory) -> (r: usize)
        ensures
            (forall|i: int|
                0 <= i < self.offsets@.len() ==> (#[trigger] self.offsets@[i]).category
                    != category) ==> r == 0,
            (exists|i: int|
                0 <= i < self.offsets@.len() && (#[trigger] self.offsets@[i]).category
                    == category) ==> exists|i: int|
                0 <= i < self.offsets@.len() && (#[trigger] self.offsets@[i]).category
                    == category && r == self.offsets@[i].space,
    {
        match find_offset_entry(&self.offsets, category) {
            Some(e) => e.space,
            None => 0,
        }
    }

    /// The laid-out variable's type.
    pub fn ty(&self) -> (r: &Type)
        ensures
            r == &*self.variable.ty,
    {
        self.variable.ty()
    }

    /// The binding index of a parameter.
    pub fn binding_index(&self) -> (r: u32)
        ensures
            r == self.binding_index,
    {
        self.binding_index
    }

    /// The binding space of a parameter.
    pub fn binding_space(&self) -> (r: u32)
        ensures
            r == self.binding_space,
    {
        self.binding_space
    }

    /// The image format declared for the variable.
    pub fn image_format(&self) -> (r: SlangImageFormat)
        ensures
            r == self.image_format,
    {
        self.image_format
    }

    /// The semantic name bound to the variable, absent when it has none.
    pub fn semantic_name(&self) -> (r: Option<&String>)
        ensures
            self.semantic_name matches Some(s) ==> (r matches Some(t) && t@ == s@),
            self.semantic_name is None ==> r is None,
    {
        match &self.semantic_name {
            Some(s) => Some(s),
            None => None,
        }
    }

    /// The semantic index bound to the variable.
    pub fn semantic_index(&self) -> (r: usize)
        ensures
            r == self.semantic_index,
    {
        self.semantic_index
    }

    /// The pipeline stage the variable belongs to.
    pub fn stage(&self) -> (r: SlangStage)
        ensures
            r == self.stage,
    {
        self.stage
    }

    /// The layout of the variable's pending specialization data, absent when
    /// it carries none.
    pub fn pending_data_layout(&self) -> (r: Option<&VariableLayout>)
        ensures
            self.pending_data_layout matches Some(v) ==> r == Some(&*v),
            self.pending_data_layout is None ==> r is None,
    {
        match &self.pending_data_layout {
            Some(v) => Some(&*v),
            None => None,
        }
    }
}

/// A borrowed view of one binding range of a type layout.
pub struct TypeLayoutBindingRange<'x> {
    pub refl: &'x TypeLayout,
    pub index: usize,
}

impl<'x> TypeLayoutBindingRange<'x> {
    /// The binding range this view reads.
    pub open spec fn spec_info(self) -> BindingRangeInfo {
        self.refl.binding_ranges@[self.index as int]
    }

    /// Holds when the view points inside the owning layout's ranges.
    pub open spec fn spec_wf(self) -> bool {
        self.index < self.refl.binding_ranges@.len()
    }

    /// The binding classification of the range.
    pub fn ty(&self) -> (r: BindingType)
        requires
            self.spec_wf(),
        ensures
            r == self.spec_info().binding_type,
    {
        self.refl.binding_range_type(self.index)
    }

    /// Whether the range can be specialized.
    pub fn is_specializable(&self) -> (r: bool)
        requires
            self.spec_wf(),
        ensures
            r == self.spec_info().specializable,
    {
        self.refl.is_binding_range_specializable(self.index)
    }

    /// How many bindings the range covers.
    pub fn binding_count(&self) -> (r: i64)
        requires
            self.spec_wf(),
        ensures
            r == self.spec_info().binding_count,
    {
        self.refl.binding_range_binding_count(self.index)
    }

    /// The leaf type layout of the range, absent when it has none.
    pub fn leaf_type_layout(&self) -> (r: Option<&'x TypeLayout>)
        requires
            self.spec_wf(),
        ensures
            self.spec_info().leaf_type_layout matches Some(t) ==> r == Some(&*t),
            self.spec_info().leaf_type_layout is None ==> r is None,
    {
        self.refl.binding_range_leaf_type_layout(self.index)
    }

    /// The leaf variable of the range, absent when it has none.
    pub fn leaf_variable(&self) -> (r: Option<&'x Variable>)
        requires
            self.spec_wf(),
        ensures
            self.spec_info().leaf_variable matches Some(v) ==> r == Some(&*v),
            self.spec_info().leaf_variable is None ==> r is None,
    {
        self.refl.binding_range_leaf_variable(self.index)
    }

    /// The image format of the range.
    pub fn image_format(&self) -> (r: SlangImageFormat)
        requires
            self.spec_wf(),
        ensures
            r == self.spec_info().image_format,
    {
        self.refl.binding_range_image_format(self.index)
    }

    /// Which descriptor set the range lands in.
    pub fn descriptor_set_index(&self) -> (r: i64)
        requires
            self.spec_wf(),
        ensures
            r == self.spec_info().descriptor_set_index,
    {
        self.refl.binding_range_descriptor_set_index(self.index)
    }

    /// The first descriptor range of the range.
    pub fn first_descriptor_range_index(&self) -> (r: i64)
        requires
            self.spec_wf(),
        ensures
            r == self.spec_info().first_descriptor_range_index,
    {
        self.refl.binding_range_first_descriptor_range_index(self.index)
    }

    /// How many descriptor ranges the range covers.
    pub fn descriptor_range_count(&self) -> (r: i64)
        requires
            self.spec_wf(),
        ensures
            r == self.spec_info().descriptor_range_count,
    {
        self.refl.binding_range_descriptor_range_count(self.index)
    }
}

/// A borrowed view of one descriptor set of a type layout.
pub struct TypeLayoutDescriptorSet<'x> {
    pub refl: &'x TypeLayout,
    pub index: usize,
}

impl<'x> TypeLayoutDescriptorSet<'x> {
    /// The descriptor set this view reads.
    pub open spec fn spec_info(self) -> DescriptorSetInfo {
        self.refl.descriptor_sets@[self.index as int]
    }

    /// Holds when the view points inside the owning layout's sets.
    pub open spec fn spec_wf(self) -> bool {
        self.index < self.refl.descriptor_sets@.len()
    }

    /// The space offset of the set.
    pub fn space_offset(&self) -> (r: i64)
        requires
            self.spec_wf(),
        ensures
            r == self.spec_info().space_offset,
    {
        self.refl.descriptor_set_space_offset(self.index)
    }

    /// How many descriptor ranges the set holds.
    pub fn descriptor_range_count(&self) -> (r: usize)
        requires
            self.spec_wf(),
        ensures
            r == self.spec_info().ranges@.len(),
    {
        self.refl.descriptor_set_descriptor_range_count(self.index)
    }

    /// The index offset of the descriptor range at `range_index`.
    pub fn descriptor_range_index_offset(&self, range_index: usize) -> (r: i64)
        requires
            self.spec_wf(),
            range_index < self.spec_info().ranges@.len(),
        ensures
            r == self.spec_info().ranges@[range_index as int].index_offset,
    {
        self.refl.descriptor_set_descriptor_range_index_offset(self.index, range_index)
    }

    /// How many descriptors the descriptor range at `range_index` covers.
    pub fn descriptor_range_descriptor_count(&self, range_index: usize) -> (r: i64)
        requires
            self.spec_wf(),
            range_index < self.spec_info().ranges@.len(),
        ensures
            r == self.spec_info().ranges@[range_index as int].descriptor_count,
    {
        self.refl.descriptor_set_descriptor_range_descriptor_count(self.index, range_index)
    }

    /// The binding classification of the descriptor range at `range_index`.
    pub fn descriptor_range_type(&self, range_index: usize) -> (r: BindingType)
        requires
            self.spec_wf(),
            range_index < self.spec_info().ranges@.len(),
        ensures
            r == self.spec_info().ranges@[range_index as int].binding_type,
    {
        self.refl.descriptor_set_descriptor_range_type(self.index, range_index)
    }

    /// The category of the descriptor range at `range_index`.
    pub fn descriptor_range_category(&self, range_index: usize) -> (r: ParameterCategory)
        requires
            self.spec_wf(),
            range_index < self.spec_info().ranges@.len(),
        ensures
            r == self.spec_info().ranges@[range_index as int].category,
    {
        self.refl.descriptor_set_descriptor_range_category(self.index, range_index)
    }

    /// A fresh iteration window over the set's descriptor ranges.
    pub fn iter_descriptor_range(&self) -> (r: TypeLayoutDescriptorSetDescriptorRangeIterator<'x>)
        requires
            self.spec_wf(),
        ensures
            r.refl == self.refl,
            r.set_index == self.index,
            r.current == 0,
            r.count == self.spec_info().ranges@.len(),
            r.spec_wf(),
    {
        TypeLayoutDescriptorSetDescriptorRangeIterator {
            refl: self.refl,
            set_index: self.index,
            current: 0,
            count: self.refl.descriptor_set_descriptor_range_count(self.index),
        }
    }
}

/// A borrowed view of one descriptor range of one descriptor set.
pub struct TypeLayoutDescriptorSetDescriptorRange<'x> {
    pub refl: &'x TypeLayout,
    pub set_index: usize,
    pub range_index: usize,
}

impl<'x> TypeLayoutDescriptorSetDescriptorRange<'x> {
    /// The descriptor range this view reads.
    pub open spec fn spec_info(self) -> DescriptorRangeInfo {
        self.refl.descriptor_sets@[self.set_index as int].ranges@[self.range_index as int]
    }

    /// Holds when the view points inside the owning layout's sets.
    pub open spec fn spec_wf(self) -> bool {
        self.set_index < self.refl.descriptor_sets@.len() && self.range_index
            < self.refl.descriptor_sets@[self.set_index as int].ranges@.len()
    }

    /// The index offset of the range.
    pub fn index_offset(&self) -> (r: i64)
        requires
            self.spec_wf(),
        ensures
            r == self.spec_info().index_offset,
    {
        self.refl.descriptor_set_descriptor_range_index_offset(self.set_index, self.range_index)
    }

    /// How many descriptors the range covers.
    pub fn descriptor_count(&self) -> (r: i64)
        requires
            self.spec_wf(),
        ensures
            r == self.spec_info().descriptor_count,
    {
        self.refl.descriptor_set_descriptor_range_descriptor_count(
            self.set_index,
            self.range_index,
        )
    }

    /// The binding classification of the range.
    pub fn ty(&self) -> (r: BindingType)
        requires
            self.spec_wf(),
        ensures
            r == self.spec_info().binding_type,
    {
        self.refl.descriptor_set_descriptor_range_type(self.set_index, self.range_index)
    }

    /// The category of the range.
    pub fn category(&self) -> (r: ParameterCategory)
        requires
            self.spec_wf(),
        ensures
            r == self.spec_info().category,
    {
        self.refl.descriptor_set_descriptor_range_category(self.set_index, self.range_index)
    }
}

/// A borrowed view of one sub-object range of a type layout.
pub struct TypeLayoutSubObjectRange<'x> {
    pub refl: &'x TypeLayout,
    pub index: usize,
}

impl<'x> TypeLayoutSubObjectRange<'x> {
    /// The sub-object range this view reads.
    pub open spec fn spec_info(self) -> SubObjectRangeInfo {
        self.refl.sub_object_ranges@[self.index as int]
    }

    /// Holds when the view points inside the owning layout's ranges.
    pub open spec fn spec_wf(self) -> bool {
        self.index < self.refl.sub_object_ranges@.len()
    }

    /// Which binding range the sub-object range begins at.
    pub fn binding_range_index(&self) -> (r: i64)
        requires
            self.spec_wf(),
        ensures
            r == self.spec_info().binding_range_index,
    {
        self.refl.sub_object_range_binding_range_index(self.index)
    }

    /// The space offset of the sub-object range.
    pub fn space_offset(&self) -> (r: i64)
        requires
            self.spec_wf(),
        ensures
            r == self.spec_info().space_offset,
    {
        self.refl.sub_object_range_space_offset(self.index)
    }

    /// The offset variable layout of the sub-object range, absent when it
    /// has none.
    pub fn offset(&self) -> (r: Option<&'x VariableLayout>)
        requires
            self.spec_wf(),
        ensures
            self.spec_info().offset matches Some(v) ==> r == Some(&*v),
            self.spec_info().offset is None ==> r is None,
    {
        self.refl.sub_object_range_offset(self.index)
    }
}

/// Iteration window over the categories of a type layout, yielding each
/// category by value.
pub struct TypeLayoutCategoryIterator<'x> {
    pub refl: &'x TypeLayout,
    pub current: usize,
    pub count: usize,
}

impl<'x> TypeLayoutCategoryIterator<'x> {
    /// The indices this window has still to yield, in order.
    pub open spec fn spec_queue(self) -> Seq<int> {
        spec_window(self.current as int, self.count as int)
    }

    /// Holds when the window agrees with the owning record's collection.
    pub open spec fn spec_wf(self) -> bool {
        self.count == self.refl.categories@.len() && self.current <= self.count
    }

    /// The next category, in strictly increasing index order, or the absent
    /// option once the window is exhausted.
    pub fn next(&mut self) -> (r: Option<ParameterCategory>)
        requires
            old(self).spec_wf(),
        ensures
            final(self).spec_wf(),
            final(self).refl == old(self).refl,
            old(self).spec_queue().len() > 0 ==> {
                &&& r == Some(old(self).refl.categories@[old(self).spec_queue()[0]])
                &&& final(self).spec_queue() == old(self).spec_queue().drop_first()
            },
            old(self).spec_queue().len() == 0 ==> r is None && *final(self) == *old(self),
    {
        if self.current < self.count {
            let i = self.current;
            self.current = i + 1;
            proof {
                lemma_window_step(i as int, self.count as int);
            }
            Some(self.refl.categories[i])
        } else {
            None
        }
    }
}

/// Iteration window over the field layouts of a typelayout record.
pub struct TypeLayoutFieldIterator<'x> {
    pub refl: &'x TypeLayout,
    pub current: usize,
    pub count: usize,
}

impl<'x> TypeLayoutFieldIterator<'x> {
    /// The indices this window has still to yield, in order.
    pub open spec fn spec_queue(self) -> Seq<int> {
        spec_window(self.current as int, self.count as int)
    }

    /// Holds when the window agrees with the owning record's collection.
    pub open spec fn spec_wf(self) -> bool {
        self.count == self.refl.fields@.len() && self.current <= self.count
    }

    /// The next item, in strictly increasing index order, or the absent
    /// option once the window is exhausted.
    pub fn next(&mut self) -> (r: Option<&'x VariableLayout>)
        requires
            old(self).spec_wf(),
        ensures
            final(self).spec_wf(),
            final(self).refl == old(self).refl,
            old(self).spec_queue().len() > 0 ==> {
                &&& r == Some(&old(self).refl.fields@[old(self).spec_queue()[0]])
                &&& final(self).spec_queue() == old(self).spec_queue().drop_first()
            },
            old(self).spec_queue().len() == 0 ==> r is None && *final(self) == *old(self),
    {
        if self.current < self.count {
            let i = self.current;
            self.current = i + 1;
            proof {
                lemma_window_step(i as int, self.count as int);
            }
            Some(&self.refl.fields[i])
        } else {
            None
        }
    }
}

/// Iteration window over the binding ranges of a typelayout record.
pub struct TypeLayoutBindingRangeIterator<'x> {
    pub refl: &'x TypeLayout,
    pub current: usize,
    pub count: usize,
}

impl<'x> TypeLayoutBindingRangeIterator<'x> {
    /// The indices this window has still to yield, in order.
    pub open spec fn spec_queue(self) -> Seq<int> {
        spec_window(self.current as int, self.count as int)
    }

    /// Holds when the window agrees with the owning record's collection.
    pub open spec fn spec_wf(self) -> bool {
        self.count == self.refl.binding_ranges@.len() && self.current <= self.count
    }

    /// The next item, in strictly increasing index order, or the absent
    /// option once the window is exhausted.
    pub fn next(&mut self) -> (r: Option<TypeLayoutBindingRange<'x>>)
        requires
            old(self).spec_wf(),
        ensures
            final(self).spec_wf(),
            final(self).refl == old(self).refl,
            old(self).spec_queue().len() > 0 ==> {
                &&& r matches Some(b) && b.refl == old(self).refl && b.index == old(
                    self,
                ).spec_queue()[0] && b.spec_wf()
                &&& final(self).spec_queue() == old(self).spec_queue().drop_first()
            },
            old(self).spec_queue().len() == 0 ==> r is None && *final(self) == *old(self),
    {
        if self.current < self.count {
            let i = self.current;
            self.current = i + 1;
            proof {
                lemma_window_step(i as int, self.count as int);
            }
            Some(TypeLayoutBindingRange { refl: self.refl, index: i })
        } else {
            None
        }
    }
}

/// Iteration window over the descriptor sets of a typelayout record.
pub struct TypeLayoutDescriptorSetIterator<'x> {
    pub refl: &'x TypeLayout,
    pub current: usize,
    pub count: usize,
}

impl<'x> TypeLayoutDescriptorSetIterator<'x> {
    /// The indices this window has still to yield, in order.
    pub open spec fn spec_queue(self) -> Seq<int> {
        spec_window(self.current as int, self.count as int)
    }

    /// Holds when the window agrees with the owning record's collection.
    pub open spec fn spec_wf(self) -> bool {
        self.count == self.refl.descriptor_sets@.len() && self.current <= self.count
    }

    /// The next item, in strictly increasing index order, or the absent
    /// option once the window is exhausted.
    pub fn next(&mut self) -> (r: Option<TypeLayoutDescriptorSet<'x>>)
        requires
            old(self).spec_wf(),
        ensures
            final(self).spec_wf(),
            final(self).refl == old(self).refl,
            old(self).spec_queue().len() > 0 ==> {
                &&& r matches Some(b) && b.refl == old(self).refl && b.index == old(
                    self,
                ).spec_queue()[0] && b.spec_wf()
                &&& final(self).spec_queue() == old(self).spec_queue().drop_first()
            },
            old(self).spec_queue().len() == 0 ==> r is None && *final(self) == *old(self),
    {
        if self.current < self.count {
            let i = self.current;
            self.current = i + 1;
            proof {
                lemma_window_step(i as int, self.count as int);
            }
            Some(TypeLayoutDescriptorSet { refl: self.refl, index: i })
        } else {
            None
        }
    }
}

/// Iteration window over the sub-object ranges of a typelayout record.
pub struct TypeLayoutSubObjectRangeIterator<'x> {
    pub refl: &'x TypeLayout,
    pub current: usize,
    pub count: usize,
}

impl<'x> TypeLayoutSubObjectRangeIterator<'x> {
    /// The indices this window has still to yield, in order.
    pub open spec fn spec_queue(self) -> Seq<int> {
        spec_window(self.current as int, self.count as int)
    }

    /// Holds when the window agrees with the owning record's collection.
    pub open spec fn spec_wf(self) -> bool {
        self.count == self.refl.sub_object_ranges@.len() && self.current <= self.count
    }

    /// The next item, in strictly increasing index order, or the absent
    /// option once the window is exhausted.
    pub fn next(&mut self) -> (r: Option<TypeLayoutSubObjectRange<'x>>)
        requires
            old(self).spec_wf(),
        ensures
            final(self).spec_wf(),
            final(self).refl == old(self).refl,
            old(self).spec_queue().len() > 0 ==> {
                &&& r matches Some(b) && b.refl == old(self).refl && b.index == old(
                    self,
                ).spec_queue()[0] && b.spec_wf()
                &&& final(self).spec_queue() == old(self).spec_queue().drop_first()
            },
            old(self).spec_queue().len() == 0 ==> r is None && *final(self) == *old(self),
    {
        if self.current < self.count {
            let i = self.current;
            self.current = i + 1;
            proof {
                lemma_window_step(i as int, self.count as int);
            }
            Some(TypeLayoutSubObjectRange { refl: self.refl, index: i })
        } else {
            None
        }
    }
}

/// Iteration window over the descriptor ranges of one descriptor set.
pub struct TypeLayoutDescriptorSetDescriptorRangeIterator<'x> {
    pub refl: &'x TypeLayout,
    pub set_index: usize,
    pub current: usize,
    pub count: usize,
}

impl<'x> TypeLayoutDescriptorSetDescriptorRangeIterator<'x> {
    /// The indices this window has still to yield, in order.
    pub open spec fn spec_queue(self) -> Seq<int> {
        spec_window(self.current as int, self.count as int)
    }

    /// Holds when the window agrees with the owning set's ranges.
    pub open spec fn spec_wf(self) -> bool {
        &&& self.set_index < self.refl.descriptor_sets@.len()
        &&& self.count == self.refl.descriptor_sets@[self.set_index as int].ranges@.len()
        &&& self.current <= self.count
    }

    /// The next descriptor range, in strictly increasing index order, or the
    /// absent option once the window is exhausted.
    pub fn next(&mut self) -> (r: Option<TypeLayoutDescriptorSetDescriptorRange<'x>>)
        requires
            old(self).spec_wf(),
        ensures
            final(self).spec_wf(),
            final(self).refl == old(self).refl,
            final(self).set_index == old(self).set_index,
            old(self).spec_queue().len() > 0 ==> {
                &&& r matches Some(b) && b.refl == old(self).refl && b.set_index == old(
                    self,
                ).set_index && b.range_index == old(self).spec_queue()[0] && b.spec_wf()
                &&& final(self).spec_queue() == old(self).spec_queue().drop_first()
            },
            old(self).spec_queue().len() == 0 ==> r is None && *final(self) == *old(self),
    {
        if self.current < self.count {
            let i = self.current;
            self.current = i + 1;
            proof {
                lemma_window_step(i as int, self.count as int);
            }
            Some(
                TypeLayoutDescriptorSetDescriptorRange {
                    refl: self.refl,
                    set_index: self.set_index,
                    range_index: i,
                },
            )
        } else {
            None
        }
    }
}

} // verus!
