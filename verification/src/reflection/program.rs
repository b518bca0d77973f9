//! Reflected functions, generics, entry points, whole-program layouts, and
//! declarations: the upper half of the introspection facade.

use vstd::prelude::*;

use crate::abi::SlangDeclKind;
use crate::abi::SlangStage;
use crate::reflection::layout::TypeLayout;
use crate::reflection::layout::VariableLayout;
use crate::reflection::lemma_window_step;
use crate::reflection::spec_window;
use crate::reflection::types::find_attribute_by_name;
use crate::reflection::types::find_modifier_by_id;
use crate::reflection::types::Attribute;
use crate::reflection::types::Modifier;
use crate::reflection::types::Type;
use crate::reflection::types::Variable;

verus! {

/// A reflected function: its signature, attributes, and overload set.
pub struct Function {
    pub name: String,
    pub result_type: Box<Type>,
    pub parameters: Vec<Variable>,
    pub user_attributes: Vec<Attribute>,
    pub modifiers: Vec<Modifier>,
    pub overloads: Vec<Function>,
    pub generic_container: Option<Box<Generic>>,
}

impl Function {
    /// Name of the function.
    pub fn name(&self) -> (r: &String)
        ensures
            r@ == self.name@,
    {
        &self.name
    }

    /// The function's result type.
    pub fn result_type(&self) -> (r: &Type)
        ensures
            r == &*self.result_type,
    {
        &*self.result_type
    }

    /// How many parameters the function takes.
    pub fn parameter_count(&self) -> (r: usize)
        ensures
            r == self.parameters@.len(),
    {
        self.parameters.len()
    }

    /// The parameter at `index`, absent when the index is out of range.
    pub fn parameter(&self, index: usize) -> (r: Option<&Variable>)
        ensures
            index < self.parameters@.len() ==> r == Some(&self.parameters@[index as int]),
            index >= self.parameters@.len() ==> r is None,
    {
        if index < self.parameters.len() {
            Some(&self.parameters[index])
        } else {
            None
        }
    }

    /// A fresh iteration window over the parameters.
    pub fn iter_parameter<'x>(&'x self) -> (r: FunctionParameterIterator<'x>)
        ensures
            r.refl == self,
            r.current == 0,
            r.count == self.parameters@.len(),
            r.spec_wf(),
    {
        FunctionParameterIterator { refl: self, current: 0, count: self.parameters.len() }
    }

    /// How many user attributes the function carries.
    pub fn user_attribute_count(&self) -> (r: usize)
        ensures
            r == self.user_attributes@.len(),
    {
        self.user_attributes.len()
    }

    /// The user attribute at `index`, absent when the index is out of range.
    pub fn user_attribute(&self, index: usize) -> (r: Option<&Attribute>)
        ensures
            index < self.user_attributes@.len() ==> r == Some(&self.user_attributes@[index as int]),
            index >= self.user_attributes@.len() ==> r is None,
    {
        if index < self.user_attributes.len() {
            Some(&self.user_attributes[index])
        } else {
            None
        }
    }

    /// A fresh iteration window over the user attributes.
    pub fn iter_user_attribute<'x>(&'x self) -> (r: FunctionUserAttributeIterator<'x>)
        ensures
            r.refl == self,
            r.current == 0,
            r.count == self.user_attributes@.len(),
            r.spec_wf(),
    {
        FunctionUserAttributeIterator { refl: self, current: 0, count: self.user_attributes.len() }
    }

    /// The first user attribute with the given name, absent when no
    /// attribute carries it.
    pub fn find_user_attribute_by_name(&self, name: &String) -> (r: Option<&Attribute>)
        ensures
            r matches Some(a) ==> exists|i: int|
                0 <= i < self.user_attributes@.len() && a == &self.user_attributes@[i]
                    && a.name@ == name@,
            r is None ==> forall|i: int|
                0 <= i < self.user_attributes@.len() ==> (#[trigger] self.user_attributes@[i]).name@
                    != name@,
    {
        find_attribute_by_name(&self.user_attributes, name)
    }

    /// The modifier with the given identifier, absent when the function does
    /// not carry it.
    pub fn find_modifier(&self, id: crate::abi::SlangModifierID) -> (r: Option<&Modifier>)
        ensures
            r matches Some(m) ==> exists|i: int|
                0 <= i < self.modifiers@.len() && m == &self.modifiers@[i] && m.id == id,
            r is None ==> forall|i: int|
                0 <= i < self.modifiers@.len() ==> (#[trigger] self.modifiers@[i]).id != id,
    {
        find_modifier_by_id(&self.modifiers, id)
    }

    /// Whether the name resolves to more than one candidate: the record then
    /// lists the candidates as overloads.
    pub fn is_overloaded(&self) -> (r: bool)
        ensures
            r == (self.overloads@.len() > 0),
    {
        self.overloads.len() > 0
    }

    /// How many overload candidates the function has.
    pub fn overload_count(&self) -> (r: usize)
        ensures
            r == self.overloads@.len(),
    {
        self.overloads.len()
    }

    /// The overload candidate at `index`, absent when the index is out of
    /// range.
    pub fn overload(&self, index: usize) -> (r: Option<&Function>)
        ensures
            index < self.overloads@.len() ==> r == Some(&self.overloads@[index as int]),
            index >= self.overloads@.len() ==> r is None,
    {
        if index < self.overloads.len() {
            Some(&self.overloads[index])
        } else {
            None
        }
    }

    /// A fresh iteration window over the overload candidates.
    pub fn iter_overload<'x>(&'x self) -> (r: FunctionOverloadIterator<'x>)
        ensures
            r.refl == self,
            r.current == 0,
            r.count == self.overloads@.len(),
            r.spec_wf(),
    {
        FunctionOverloadIterator { refl: self, current: 0, count: self.overloads.len() }
    }

    /// The generic container the function was declared under, absent when it
    /// was declared under none.
    pub fn generic_container(&self) -> (r: Option<&Generic>)
        ensures
            self.generic_container matches Some(g) ==> r == Some(&*g),
            self.generic_container is None ==> r is None,
    {
        match &self.generic_container {
            Some(g) => Some(&*g),
            None => None,
        }
    }
}

/// A reflected generic container: its parameters and their constraints. The
/// constraint lists stand in parameter order, one per type parameter.
pub struct Generic {
    pub name: String,
    pub type_parameters: Vec<Variable>,
    pub value_parameters: Vec<Variable>,
    pub type_parameter_constraints: Vec<Vec<Type>>,
    pub inner_kind: SlangDeclKind,
}

impl Generic {
    /// Name of the generic container.
    pub fn name(&self) -> (r: &String)
        ensures
            r@ == self.name@,
    {
        &self.name
    }

    /// How many type parameters the generic declares.
    pub fn type_parameter_count(&self) -> (r: usize)
        ensures
            r == self.type_parameters@.len(),
    {
        self.type_parameters.len()
    }

    /// The type parameter at `index`, absent when the index is out of range.
    pub fn type_parameter(&self, index: usize) -> (r: Option<&Variable>)
        ensures
            index < self.type_parameters@.len() ==> r == Some(&self.type_parameters@[index as int]),
            index >= self.type_parameters@.len() ==> r is None,
    {
        if index < self.type_parameters.len() {
            Some(&self.type_parameters[index])
        } else {
            None
        }
    }

    /// A fresh iteration window over the type parameters.
    pub fn iter_type_parameter<'x>(&'x self) -> (r: GenericTypeParameterIterator<'x>)
        ensures
            r.refl == self,
            r.current == 0,
            r.count == self.type_parameters@.len(),
            r.spec_wf(),
    {
        GenericTypeParameterIterator { refl: self, current: 0, count: self.type_parameters.len() }
    }

    /// How many value parameters the generic declares.
    pub fn value_parameter_count(&self) -> (r: usize)
        ensures
            r == self.value_parameters@.len(),
    {
        self.value_parameters.len()
    }

    /// The value parameter at `index`, absent when the index is out of
    /// range.
    pub fn value_parameter(&self, index: usize) -> (r: Option<&Variable>)
        ensures
            index < self.value_parameters@.len() ==> r == Some(
                &self.value_parameters@[index as int],
            ),
            index >= self.value_parameters@.len() ==> r is None,
    {
        if index < self.value_parameters.len() {
            Some(&self.value_parameters[index])
        } else {
            None
        }
    }

    /// A fresh iteration window over the value parameters.
    pub fn iter_value_parameter<'x>(&'x self) -> (r: GenericValueParameterIterator<'x>)
        ensures
            r.refl == self,
            r.current == 0,
            r.count == self.value_parameters@.len(),
            r.spec_wf(),
    {
        GenericValueParameterIterator { refl: self, current: 0, count: self.value_parameters.len() }
    }

    /// How many constraints the type parameter at `type_param_index`
    /// carries.
    pub fn type_parameter_constraint_count(&self, type_param_index: usize) -> (r: usize)
        requires
            type_param_index < self.type_parameter_constraints@.len(),
        ensures
            r == self.type_parameter_constraints@[type_param_index as int]@.len(),
    {
        self.type_parameter_constraints[type_param_index].len()
    }

    /// The constraint at `index` of the type parameter at
    /// `type_param_index`, absent when either index is out of range.
    pub fn type_parameter_constraint_type(&self, type_param_index: usize, index: usize) -> (r:
        Option<&Type>)
        requires
            type_param_index < self.type_parameter_constraints@.len(),
        ensures
            index < self.type_parameter_constraints@[type_param_index as int]@.len() ==> r == Some(
                &self.type_parameter_constraints@[type_param_index as int]@[index as int],
            ),
            index >= self.type_parameter_constraints@[type_param_index as int]@.len() ==> r
                is None,
    {
        let constraints = &self.type_parameter_constraints[type_param_index];
        if index < constraints.len() {
            Some(&constraints[index])
        } else {
            None
        }
    }

    /// The raw kind of the declaration the generic wraps.
    pub fn inner_kind(&self) -> (r: SlangDeclKind)
        ensures
            r == self.inner_kind,
    {
        self.inner_kind
    }
}

/// A reflected entry point of a compiled program.
pub struct EntryPoint {
    pub name: String,
    pub name_override: Option<String>,
    pub function: Box<Function>,
    pub parameters: Vec<VariableLayout>,
    pub stage: SlangStage,
    pub compute_thread_group_size: [u64; 3],
    pub compute_wave_size: u64,
    pub uses_any_sample_rate_input: bool,
    pub var_layout: Box<VariableLayout>,
    pub result_var_layout: Box<VariableLayout>,
    pub has_default_constant_buffer: bool,
}

impl EntryPoint {
    /// Name of the entry point.
    pub fn name(&self) -> (r: &String)
        ensures
            r@ == self.name@,
    {
        &self.name
    }

    /// The overriding name of the entry point, absent when it keeps its own.
    pub fn name_override(&self) -> (r: Option<&String>)
        ensures
            self.name_override matches Some(s) ==> (r matches Some(t) && t@ == s@),
            self.name_override is None ==> r is None,
    {
        match &self.name_override {
            Some(s) => Some(s),
            None => None,
        }
    }

    /// The function the entry point compiles.
    pub fn function(&self) -> (r: &Function)
        ensures
            r == &*self.function,
    {
        &*self.function
    }

    /// How many parameters the entry point takes.
    pub fn parameter_count(&self) -> (r: usize)
        ensures
            r == self.parameters@.len(),
    {
        self.parameters.len()
    }

    /// The parameter layout at `index`, absent when the index is out of
    /// range.
    pub fn parameter(&self, index: usize) -> (r: Option<&VariableLayout>)
        ensures
            index < self.parameters@.len() ==> r == Some(&self.parameters@[index as int]),
            index >= self.parameters@.len() ==> r is None,
    {
        if index < self.parameters.len() {
            Some(&self.parameters[index])
        } else {
            None
        }
    }

    /// A fresh iteration window over the parameter layouts.
    pub fn iter_parameter<'x>(&'x self) -> (r: EntryPointParameterIterator<'x>)
        ensures
            r.refl == self,
            r.current == 0,
            r.count == self.parameters@.len(),
            r.spec_wf(),
    {
        EntryPointParameterIterator { refl: self, current: 0, count: self.parameters.len() }
    }

    /// The pipeline stage the entry point runs at.
    pub fn stage(&self) -> (r: SlangStage)
        ensures
            r == self.stage,
    {
        self.stage
    }

    /// The compute thread-group size along the three axes.
    pub fn compute_thread_group_size(&self) -> (r: [u64; 3])
        ensures
            r == self.compute_thread_group_size,
    {
        self.compute_thread_group_size
    }

    /// The compute wave size the entry point was compiled for.
    pub fn compute_wave_size(&self) -> (r: u64)
        ensures
            r == self.compute_wave_size,
    {
        self.compute_wave_size
    }

    /// Whether any input of the entry point is sampled at sample rate.
    pub fn uses_any_sample_rate_input(&self) -> (r: bool)
        ensures
            r == self.uses_any_sample_rate_input,
    {
        self.uses_any_sample_rate_input
    }

    /// The layout of the entry point's own variable.
    pub fn var_layout(&self) -> (r: &VariableLayout)
        ensures
            r == &*self.var_layout,
    {
        &*self.var_layout
    }

    /// The layout of the entry point's own variable's type.
    pub fn type_layout(&self) -> (r: &TypeLayout)
        ensures
            r == &*self.var_layout.type_layout,
    {
        self.var_layout.type_layout()
    }

    /// The layout of the entry point's result.
    pub fn result_var_layout(&self) -> (r: &VariableLayout)
        ensures
            r == &*self.result_var_layout,
    {
        &*self.result_var_layout
    }

    /// Whether the entry point groups its uniform parameters in a default
    /// constant buffer.
    pub fn has_default_constant_buffer(&self) -> (r: bool)
        ensures
            r == self.has_default_constant_buffer,
    {
        self.has_default_constant_buffer
    }
}

/// A reflected global type parameter of a program.
pub struct TypeParameter {
    pub name: String,
    pub index: u32,
    pub constraints: Vec<Type>,
}

impl TypeParameter {
    /// Name of the type parameter.
    pub fn name(&self) -> (r: &String)
        ensures
            r@ == self.name@,
    {
        &self.name
    }

    /// The position of the type parameter among the program's parameters.
    pub fn index(&self) -> (r: u32)
        ensures
            r == self.index,
    {
        self.index
    }

    /// How many constraints the type parameter carries.
    pub fn constraint_count(&self) -> (r: usize)
        ensures
            r == self.constraints@.len(),
    {
        self.constraints.len()
    }

    /// The constraint at `index`, absent when the index is out of range.
    pub fn constraint(&self, index: usize) -> (r: Option<&Type>)
        ensures
            index < self.constraints@.len() ==> r == Some(&self.constraints@[index as int]),
            index >= self.constraints@.len() ==> r is None,
    {
        if index < self.constraints.len() {
            Some(&self.constraints[index])
        } else {
            None
        }
    }

    /// A fresh iteration window over the constraints.
    pub fn iter_constraint<'x>(&'x self) -> (r: TypeParameterConstraintIterator<'x>)
        ensures
            r.refl == self,
            r.current == 0,
            r.count == self.constraints@.len(),
            r.spec_wf(),
    {
        TypeParameterConstraintIterator { refl: self, current: 0, count: self.constraints.len() }
    }
}

/// The layout of a whole compiled program: its global parameters, its type
/// parameters, and its entry points.
pub struct Shader {
    pub parameters: Vec<VariableLayout>,
    pub type_parameters: Vec<TypeParameter>,
    pub entry_points: Vec<EntryPoint>,
    pub types: Vec<Type>,
    pub functions: Vec<Function>,
    pub global_constant_buffer_binding: u64,
    pub global_constant_buffer_size: usize,
    pub hashed_strings: Vec<String>,
}

impl Shader {
    /// How many global parameters the program declares.
    pub fn parameter_count(&self) -> (r: usize)
        ensures
            r == self.parameters@.len(),
    {
        self.parameters.len()
    }

    /// How many global type parameters the program declares.
    pub fn type_parameter_count(&self) -> (r: usize)
        ensures
            r == self.type_parameters@.len(),
    {
        self.type_parameters.len()
    }

    /// The type parameter at `index`, absent when the index is out of range.
    pub fn type_parameter(&self, index: usize) -> (r: Option<&TypeParameter>)
        ensures
            index < self.type_parameters@.len() ==> r == Some(&self.type_parameters@[index as int]),
            index >= self.type_parameters@.len() ==> r is None,
    {
        if index < self.type_parameters.len() {
            Some(&self.type_parameters[index])
        } else {
            None
        }
    }

    /// The first type parameter with the given name, absent when no type
    /// parameter carries it.
    pub fn find_type_parameter(&self, name: &String) -> (r: Option<&TypeParameter>)
        ensures
            r matches Some(p) ==> exists|i: int|
                0 <= i < self.type_parameters@.len() && p == &self.type_parameters@[i]
                    && p.name@ == name@,
            r is None ==> forall|i: int|
                0 <= i < self.type_parameters@.len() ==> (#[trigger] self.type_parameters@[i]).name@
                    != name@,
    {
        let n = self.type_parameters.len();
        let mut i: usize = 0;
        while i < n
            invariant
                n == self.type_parameters@.len(),
                i <= n,
                forall|j: int|
                    0 <= j < i ==> (#[trigger] self.type_parameters@[j]).name@ != name@,
            decreases n - i,
        {
            if self.type_parameters[i].name == *name {
                return Some(&self.type_parameters[i]);
            }
            i = i + 1;
        }
        None
    }

    /// A fresh iteration window over the type parameters.
    pub fn iter_type_parameter<'x>(&'x self) -> (r: ShaderTypeParameterIterator<'x>)
        ensures
            r.refl == self,
            r.current == 0,
            r.count == self.type_parameters@.len(),
            r.spec_wf(),
    {
        ShaderTypeParameterIterator { refl: self, current: 0, count: self.type_parameters.len() }
    }

    /// The global parameter layout at `index`, absent when the index is out
    /// of range.
    pub fn parameter(&self, index: usize) -> (r: Option<&VariableLayout>)
        ensures
            index < self.parameters@.len() ==> r == Some(&self.parameters@[index as int]),
            index >= self.parameters@.len() ==> r is None,
    {
        if index < self.parameters.len() {
            Some(&self.parameters[index])
        } else {
            None
        }
    }

    /// A fresh iteration window over the global parameter layouts.
    pub fn iter_parameter<'x>(&'x self) -> (r: ShaderParameterIterator<'x>)
        ensures
            r.refl == self,
            r.current == 0,
            r.count == self.parameters@.len(),
            r.spec_wf(),
    {
        ShaderParameterIterator { refl: self, current: 0, count: self.parameters.len() }
    }

    /// How many entry points the program has.
    pub fn entry_point_count(&self) -> (r: usize)
        ensures
            r == self.entry_points@.len(),
    {
        self.entry_points.len()
    }

    /// The entry point at `index`, absent when the index is out of range.
    pub fn entry_point(&self, index: usize) -> (r: Option<&EntryPoint>)
        ensures
            index < self.entry_points@.len() ==> r == Some(&self.entry_points@[index as int]),
            index >= self.entry_points@.len() ==> r is None,
    {
        if index < self.entry_points.len() {
            Some(&self.entry_points[index])
        } else {
            None
        }
    }

    /// The first entry point with the given name, absent when no entry point
    /// carries it.
    pub fn find_entry_point_by_name(&self, name: &String) -> (r: Option<&EntryPoint>)
        ensures
            r matches Some(e) ==> exists|i: int|
                0 <= i < self.entry_points@.len() && e == &self.entry_points@[i] && e.name@
                    == name@,
            r is None ==> forall|i: int|
                0 <= i < self.entry_points@.len() ==> (#[trigger] self.entry_points@[i]).name@
                    != name@,
    {
        let n = self.entry_points.len();
        let mut i: usize = 0;
        while i < n
            invariant
                n == self.entry_points@.len(),
                i <= n,
                forall|j: int| 0 <= j < i ==> (#[trigger] self.entry_points@[j]).name@ != name@,
            decreases n - i,
        {
            if self.entry_points[i].name == *name {
                return Some(&self.entry_points[i]);
            }
            i = i + 1;
        }
        None
    }

    /// A fresh iteration window over the entry points.
    pub fn iter_entry_point<'x>(&'x self) -> (r: ShaderEntryPointIterator<'x>)
        ensures
            r.refl == self,
            r.current == 0,
            r.count == self.entry_points@.len(),
            r.spec_wf(),
    {
        ShaderEntryPointIterator { refl: self, current: 0, count: self.entry_points.len() }
    }

    /// The binding index of the global constant buffer.
    pub fn global_constant_buffer_binding(&self) -> (r: u64)
        ensures
            r == self.global_constant_buffer_binding,
    {
        self.global_constant_buffer_binding
    }

    /// The size in bytes of the global constant buffer.
    pub fn global_constant_buffer_size(&self) -> (r: usize)
        ensures
            r == self.global_constant_buffer_size,
    {
        self.global_constant_buffer_size
    }

    /// How many hashed strings the program records.
    pub fn hashed_string_count(&self) -> (r: usize)
        ensures
            r == self.hashed_strings@.len(),
    {
        self.hashed_strings.len()
    }

    /// The hashed string at `index`, absent when the index is out of range.
    pub fn hashed_string(&self, index: usize) -> (r: Option<&String>)
        ensures
            index < self.hashed_strings@.len() ==> (r matches Some(s) && s@
                == self.hashed_strings@[index as int]@),
            index >= self.hashed_strings@.len() ==> r is None,
    {
        if index < self.hashed_strings.len() {
            Some(&self.hashed_strings[index])
        } else {
            None
        }
    }

    /// The first type of the program with the given name, absent when no
    /// type carries it.
    pub fn find_type_by_name(&self, name: &String) -> (r: Option<&Type>)
        ensures
            r matches Some(t) ==> exists|i: int|
                0 <= i < self.types@.len() && t == &self.types@[i] && t.name@ == name@,
            r is None ==> forall|i: int|
                0 <= i < self.types@.len() ==> (#[trigger] self.types@[i]).name@ != name@,
    {
        let n = self.types.len();
        let mut i: usize = 0;
        while i < n
            invariant
                n == self.types@.len(),
                i <= n,
                forall|j: int| 0 <= j < i ==> (#[trigger] self.types@[j]).name@ != name@,
            decreases n - i,
        {
            if self.types[i].name == *name {
                return Some(&self.types[i]);
            }
            i = i + 1;
        }
        None
    }

    /// The first function of the program with the given name, absent when no
    /// function carries it.
    pub fn find_function_by_name(&self, name: &String) -> (r: Option<&Function>)
        ensures
            r matches Some(f) ==> exists|i: int|
                0 <= i < self.functions@.len() && f == &self.functions@[i] && f.name@ == name@,
            r is None ==> forall|i: int|
                0 <= i < self.functions@.len() ==> (#[trigger] self.functions@[i]).name@ != name@,
    {
        let n = self.functions.len();
        let mut i: usize = 0;
        while i < n
            invariant
                n == self.functions@.len(),
                i <= n,
                forall|j: int| 0 <= j < i ==> (#[trigger] self.functions@[j]).name@ != name@,
            decreases n - i,
        {
            if self.functions[i].name == *name {
                return Some(&self.functions[i]);
            }
            i = i + 1;
        }
        None
    }
}

/// What a reflected declaration stands for, with the record it casts to.
pub enum DeclPayload {
    /// A variable declaration.
    Var(Box<Variable>),
    /// A function declaration.
    Func(Box<Function>),
    /// A generic container declaration.
    Container(Box<Generic>),
    /// A declaration the facade exposes only structurally.
    Other,
}

/// A reflected declaration in a module's declaration tree.
pub struct Decl {
    pub name: String,
    pub kind: SlangDeclKind,
    pub payload: DeclPayload,
    pub ty: Option<Box<Type>>,
    pub children: Vec<Decl>,
}

impl Decl {
    /// Name of the declaration.
    pub fn name(&self) -> (r: &String)
        ensures
            r@ == self.name@,
    {
        &self.name
    }

    /// The raw kind of the declaration.
    pub fn kind(&self) -> (r: SlangDeclKind)
        ensures
            r == self.kind,
    {
        self.kind
    }

    /// How many child declarations the declaration holds.
    pub fn children_count(&self) -> (r: usize)
        ensures
            r == self.children@.len(),
    {
        self.children.len()
    }

    /// The child declaration at `index`, absent when the index is out of
    /// range.
    pub fn child(&self, index: usize) -> (r: Option<&Decl>)
        ensures
            index < self.children@.len() ==> r == Some(&self.children@[index as int]),
            index >= self.children@.len() ==> r is None,
    {
        if index < self.children.len() {
            Some(&self.children[index])
        } else {
            None
        }
    }

    /// A fresh iteration window over the child declarations.
    pub fn iter_child<'x>(&'x self) -> (r: DeclChildrenIterator<'x>)
        ensures
            r.refl == self,
            r.current == 0,
            r.count == self.children@.len(),
            r.spec_wf(),
    {
        DeclChildrenIterator { refl: self, current: 0, count: self.children.len() }
    }

    /// The type the declaration introduces, absent when it introduces none.
    pub fn ty(&self) -> (r: Option<&Type>)
        ensures
            self.ty matches Some(t) ==> r == Some(&*t),
            self.ty is None ==> r is None,
    {
        match &self.ty {
            Some(t) => Some(&*t),
            None => None,
        }
    }

    /// The declaration as a variable: present exactly when it declares one.
    pub fn as_variable(&self) -> (r: Option<&Variable>)
        ensures
            self.payload matches DeclPayload::Var(v) ==> r == Some(&*v),
            !(self.payload is Var) ==> r is None,
    {
        match &self.payload {
            DeclPayload::Var(v) => Some(&*v),
            _ => None,
        }
    }

    /// The declaration as a function: present exactly when it declares one.
    pub fn as_function(&self) -> (r: Option<&Function>)
        ensures
            self.payload matches DeclPayload::Func(f) ==> r == Some(&*f),
            !(self.payload is Func) ==> r is None,
    {
        match &self.payload {
            DeclPayload::Func(f) => Some(&*f),
            _ => None,
        }
    }

    /// The declaration as a generic container: present exactly when it
    /// declares one.
    pub fn as_generic(&self) -> (r: Option<&Generic>)
        ensures
            self.payload matches DeclPayload::Container(g) ==> r == Some(&*g),
            !(self.payload is Container) ==> r is None,
    {
        match &self.payload {
            DeclPayload::Container(g) => Some(&*g),
            _ => None,
        }
    }
}

/// Iteration window over the parameters of a function record.
pub struct FunctionParameterIterator<'x> {
    pub refl: &'x Function,
    pub current: usize,
    pub count: usize,
}

impl<'x> FunctionParameterIterator<'x> {
    /// The indices this window has still to yield, in order.
    pub open spec fn spec_queue(self) -> Seq<int> {
        spec_window(self.current as int, self.count as int)
    }

    /// Holds when the window agrees with the owning record's collection.
    pub open spec fn spec_wf(self) -> bool {
        self.count == self.refl.parameters@.len() && self.current <= self.count
    }

    /// The next item, in strictly increasing index order, or the absent
    /// option once the window is exhausted.
    pub fn next(&mut self) -> (r: Option<&'x Variable>)
        requires
            old(self).spec_wf(),
        ensures
            final(self).spec_wf(),
            final(self).refl == old(self).refl,
            old(self).spec_queue().len() > 0 ==> {
                &&& r == Some(&old(self).refl.parameters@[old(self).spec_queue()[0]])
                &&& final(self).spec_queue() == old(self).spec_queue().drop_first()
            },
            old(self).spec_queue().len() == 0 ==> r is None && *final(self) == *old(self),
    {
        if self.current < self.count {
            let i = self.current;
            self.current = i + 1;
            proof {
                lemma_window_step(i as int, self.count as int);
            }
            Some(&self.refl.parameters[i])
        } else {
            None
        }
    }
}

/// Iteration window over the user attributes of a function record.
pub struct FunctionUserAttributeIterator<'x> {
    pub refl: &'x Function,
    pub current: usize,
    pub count: usize,
}

impl<'x> FunctionUserAttributeIterator<'x> {
    /// The indices this window has still to yield, in order.
    pub open spec fn spec_queue(self) -> Seq<int> {
        spec_window(self.current as int, self.count as int)
    }

    /// Holds when the window agrees with the owning record's collection.
    pub open spec fn spec_wf(self) -> bool {
        self.count == self.refl.user_attributes@.len() && self.current <= self.count
    }

    /// The next item, in strictly increasing index order, or the absent
    /// option once the window is exhausted.
    pub fn next(&mut self) -> (r: Option<&'x Attribute>)
        requires
            old(self).spec_wf(),
        ensures
            final(self).spec_wf(),
            final(self).refl == old(self).refl,
            old(self).spec_queue().len() > 0 ==> {
                &&& r == Some(&old(self).refl.user_attributes@[old(self).spec_queue()[0]])
                &&& final(self).spec_queue() == old(self).spec_queue().drop_first()
            },
            old(self).spec_queue().len() == 0 ==> r is None && *final(self) == *old(self),
    {
        if self.current < self.count {
            let i = self.current;
            self.current = i + 1;
            proof {
                lemma_window_step(i as int, self.count as int);
            }
            Some(&self.refl.user_attributes[i])
        } else {
            None
        }
    }
}

/// Iteration window over the overload candidates of a function record.
pub struct FunctionOverloadIterator<'x> {
    pub refl: &'x Function,
    pub current: usize,
    pub count: usize,
}

impl<'x> FunctionOverloadIterator<'x> {
    /// The indices this window has still to yield, in order.
    pub open spec fn spec_queue(self) -> Seq<int> {
        spec_window(self.current as int, self.count as int)
    }

    /// Holds when the window agrees with the owning record's collection.
    pub open spec fn spec_wf(self) -> bool {
        self.count == self.refl.overloads@.len() && self.current <= self.count
    }

    /// The next item, in strictly increasing index order, or the absent
    /// option once the window is exhausted.
    pub fn next(&mut self) -> (r: Option<&'x Function>)
        requires
            old(self).spec_wf(),
        ensures
            final(self).spec_wf(),
            final(self).refl == old(self).refl,
            old(self).spec_queue().len() > 0 ==> {
                &&& r == Some(&old(self).refl.overloads@[old(self).spec_queue()[0]])
                &&& final(self).spec_queue() == old(self).spec_queue().drop_first()
            },
            old(self).spec_queue().len() == 0 ==> r is None && *final(self) == *old(self),
    {
        if self.current < self.count {
            let i = self.current;
            self.current = i + 1;
            proof {
                lemma_window_step(i as int, self.count as int);
            }
            Some(&self.refl.overloads[i])
        } else {
            None
        }
    }
}

/// Iteration window over the type parameters of a generic record.
pub struct GenericTypeParameterIterator<'x> {
    pub refl: &'x Generic,
    pub current: usize,
    pub count: usize,
}

impl<'x> GenericTypeParameterIterator<'x> {
    /// The indices this window has still to yield, in order.
    pub open spec fn spec_queue(self) -> Seq<int> {
        spec_window(self.current as int, self.count as int)
    }

    /// Holds when the window agrees with the owning record's collection.
    pub open spec fn spec_wf(self) -> bool {
        self.count == self.refl.type_parameters@.len() && self.current <= self.count
    }

    /// The next item, in strictly increasing index order, or the absent
    /// option once the window is exhausted.
    pub fn next(&mut self) -> (r: Option<&'x Variable>)
        requires
            old(self).spec_wf(),
        ensures
            final(self).spec_wf(),
            final(self).refl == old(self).refl,
            old(self).spec_queue().len() > 0 ==> {
                &&& r == Some(&old(self).refl.type_parameters@[old(self).spec_queue()[0]])
                &&& final(self).spec_queue() == old(self).spec_queue().drop_first()
            },
            old(self).spec_queue().len() == 0 ==> r is None && *final(self) == *old(self),
    {
        if self.current < self.count {
            let i = self.current;
            self.current = i + 1;
            proof {
                lemma_window_step(i as int, self.count as int);
            }
            Some(&self.refl.type_parameters[i])
        } else {
            None
        }
    }
}

/// Iteration window over the value parameters of a generic record.
pub struct GenericValueParameterIterator<'x> {
    pub refl: &'x Generic,
    pub current: usize,
    pub count: usize,
}

impl<'x> GenericValueParameterIterator<'x> {
    /// The indices this window has still to yield, in order.
    pub open spec fn spec_queue(self) -> Seq<int> {
        spec_window(self.current as int, self.count as int)
    }

    /// Holds when the window agrees with the owning record's collection.
    pub open spec fn spec_wf(self) -> bool {
        self.count == self.refl.value_parameters@.len() && self.current <= self.count
    }

    /// The next item, in strictly increasing index order, or the absent
    /// option once the window is exhausted.
    pub fn next(&mut self) -> (r: Option<&'x Variable>)
        requires
            old(self).spec_wf(),
        ensures
            final(self).spec_wf(),
            final(self).refl == old(self).refl,
            old(self).spec_queue().len() > 0 ==> {
                &&& r == Some(&old(self).refl.value_parameters@[old(self).spec_queue()[0]])
                &&& final(self).spec_queue() == old(self).spec_queue().drop_first()
            },
            old(self).spec_queue().len() == 0 ==> r is None && *final(self) == *old(self),
    {
        if self.current < self.count {
            let i = self.current;
            self.current = i + 1;
            proof {
                lemma_window_step(i as int, self.count as int);
            }
            Some(&self.refl.value_parameters[i])
        } else {
            None
        }
    }
}

/// Iteration window over the parameter layouts of a entrypoint record.
pub struct EntryPointParameterIterator<'x> {
    pub refl: &'x EntryPoint,
    pub current: usize,
    pub count: usize,
}

impl<'x> EntryPointParameterIterator<'x> {
    /// The indices this window has still to yield, in order.
    pub open spec fn spec_queue(self) -> Seq<int> {
        spec_window(self.current as int, self.count as int)
    }

    /// Holds when the window agrees with the owning record's collection.
    pub open spec fn spec_wf(self) -> bool {
        self.count == self.refl.parameters@.len() && self.current <= self.count
    }

    /// The next item, in strictly increasing index order, or the absent
    /// option once the window is exhausted.
    pub fn next(&mut self) -> (r: Option<&'x VariableLayout>)
        requires
            old(self).spec_wf(),
        ensures
            final(self).spec_wf(),
            final(self).refl == old(self).refl,
            old(self).spec_queue().len() > 0 ==> {
                &&& r == Some(&old(self).refl.parameters@[old(self).spec_queue()[0]])
                &&& final(self).spec_queue() == old(self).spec_queue().drop_first()
            },
            old(self).spec_queue().len() == 0 ==> r is None && *final(self) == *old(self),
    {
        if self.current < self.count {
            let i = self.current;
            self.current = i + 1;
            proof {
                lemma_window_step(i as int, self.count as int);
            }
            Some(&self.refl.parameters[i])
        } else {
            None
        }
    }
}

/// Iteration window over the constraints of a typeparameter record.
pub struct TypeParameterConstraintIterator<'x> {
    pub refl: &'x TypeParameter,
    pub current: usize,
    pub count: usize,
}

impl<'x> TypeParameterConstraintIterator<'x> {
    /// The indices this window has still to yield, in order.
    pub open spec fn spec_queue(self) -> Seq<int> {
        spec_window(self.current as int, self.count as int)
    }

    /// Holds when the window agrees with the owning record's collection.
    pub open spec fn spec_wf(self) -> bool {
        self.count == self.refl.constraints@.len() && self.current <= self.count
    }

    /// The next item, in strictly increasing index order, or the absent
    /// option once the window is exhausted.
    pub fn next(&mut self) -> (r: Option<&'x Type>)
        requires
            old(self).spec_wf(),
        ensures
            final(self).spec_wf(),
            final(self).refl == old(self).refl,
            old(self).spec_queue().len() > 0 ==> {
                &&& r == Some(&old(self).refl.constraints@[old(self).spec_queue()[0]])
                &&& final(self).spec_queue() == old(self).spec_queue().drop_first()
            },
            old(self).spec_queue().len() == 0 ==> r is None && *final(self) == *old(self),
    {
        if self.current < self.count {
            let i = self.current;
            self.current = i + 1;
            proof {
                lemma_window_step(i as int, self.count as int);
            }
            Some(&self.refl.constraints[i])
        } else {
            None
        }
    }
}

/// Iteration window over the type parameters of a shader record.
pub struct ShaderTypeParameterIterator<'x> {
    pub refl: &'x Shader,
    pub current: usize,
    pub count: usize,
}

impl<'x> ShaderTypeParameterIterator<'x> {
    /// The indices this window has still to yield, in order.
    pub open spec fn spec_queue(self) -> Seq<int> {
        spec_window(self.current as int, self.count as int)
    }

    /// Holds when the window agrees with the owning record's collection.
    pub open spec fn spec_wf(self) -> bool {
        self.count == self.refl.type_parameters@.len() && self.current <= self.count
    }

    /// The next item, in strictly increasing index order, or the absent
    /// option once the window is exhausted.
    pub fn next(&mut self) -> (r: Option<&'x TypeParameter>)
        requires
            old(self).spec_wf(),
        ensures
            final(self).spec_wf(),
            final(self).refl == old(self).refl,
            old(self).spec_queue().len() > 0 ==> {
                &&& r == Some(&old(self).refl.type_parameters@[old(self).spec_queue()[0]])
                &&& final(self).spec_queue() == old(self).spec_queue().drop_first()
            },
            old(self).spec_queue().len() == 0 ==> r is None && *final(self) == *old(self),
    {
        if self.current < self.count {
            let i = self.current;
            self.current = i + 1;
            proof {
                lemma_window_step(i as int, self.count as int);
            }
            Some(&self.refl.type_parameters[i])
        } else {
            None
        }
    }
}

/// Iteration window over the global parameter layouts of a shader record.
pub struct ShaderParameterIterator<'x> {
    pub refl: &'x Shader,
    pub current: usize,
    pub count: usize,
}

impl<'x> ShaderParameterIterator<'x> {
    /// The indices this window has still to yield, in order.
    pub open spec fn spec_queue(self) -> Seq<int> {
        spec_window(self.current as int, self.count as int)
    }

    /// Holds when the window agrees with the owning record's collection.
    pub open spec fn spec_wf(self) -> bool {
        self.count == self.refl.parameters@.len() && self.current <= self.count
    }

    /// The next item, in strictly increasing index order, or the absent
    /// option once the window is exhausted.
    pub fn next(&mut self) -> (r: Option<&'x VariableLayout>)
        requires
            old(self).spec_wf(),
        ensures
            final(self).spec_wf(),
            final(self).refl == old(self).refl,
            old(self).spec_queue().len() > 0 ==> {
                &&& r == Some(&old(self).refl.parameters@[old(self).spec_queue()[0]])
                &&& final(self).spec_queue() == old(self).spec_queue().drop_first()
            },
            old(self).spec_queue().len() == 0 ==> r is None && *final(self) == *old(self),
    {
        if self.current < self.count {
            let i = self.current;
            self.current = i + 1;
            proof {
                lemma_window_step(i as int, self.count as int);
            }
            Some(&self.refl.parameters[i])
        } else {
            None
        }
    }
}

/// Iteration window over the entry points of a shader record.
pub struct ShaderEntryPointIterator<'x> {
    pub refl: &'x Shader,
    pub current: usize,
    pub count: usize,
}

impl<'x> ShaderEntryPointIterator<'x> {
    /// The indices this window has still to yield, in order.
    pub open spec fn spec_queue(self) -> Seq<int> {
        spec_window(self.current as int, self.count as int)
    }

    /// Holds when the window agrees with the owning record's collection.
    pub open spec fn spec_wf(self) -> bool {
        self.count == self.refl.entry_points@.len() && self.current <= self.count
    }

    /// The next item, in strictly increasing index order, or the absent
    /// option once the window is exhausted.
    pub fn next(&mut self) -> (r: Option<&'x EntryPoint>)
        requires
            old(self).spec_wf(),
        ensures
            final(self).spec_wf(),
            final(self).refl == old(self).refl,
            old(self).spec_queue().len() > 0 ==> {
                &&& r == Some(&old(self).refl.entry_points@[old(self).spec_queue()[0]])
                &&& final(self).spec_queue() == old(self).spec_queue().drop_first()
            },
            old(self).spec_queue().len() == 0 ==> r is None && *final(self) == *old(self),
    {
        if self.current < self.count {
            let i = self.current;
            self.current = i + 1;
            proof {
                lemma_window_step(i as int, self.count as int);
            }
            Some(&self.refl.entry_points[i])
        } else {
            None
        }
    }
}

/// Iteration window over the child declarations of a decl record.
pub struct DeclChildrenIterator<'x> {
    pub refl: &'x Decl,
    pub current: usize,
    pub count: usize,
}

impl<'x> DeclChildrenIterator<'x> {
    /// The indices this window has still to yield, in order.
    pub open spec fn spec_queue(self) -> Seq<int> {
        spec_window(self.current as int, self.count as int)
    }

    /// Holds when the window agrees with the owning record's collection.
    pub open spec fn spec_wf(self) -> bool {
        self.count == self.refl.children@.len() && self.current <= self.count
    }

    /// The next item, in strictly increasing index order, or the absent
    /// option once the window is exhausted.
    pub fn next(&mut self) -> (r: Option<&'x Decl>)
        requires
            old(self).spec_wf(),
        ensures
            final(self).spec_wf(),
            final(self).refl == old(self).refl,
            old(self).spec_queue().len() > 0 ==> {
                &&& r == Some(&old(self).refl.children@[old(self).spec_queue()[0]])
                &&& final(self).spec_queue() == old(self).spec_queue().drop_first()
            },
            old(self).spec_queue().len() == 0 ==> r is None && *final(self) == *old(self),
    {
        if self.current < self.count {
            let i = self.current;
            self.current = i + 1;
            proof {
                lemma_window_step(i as int, self.count as int);
            }
            Some(&self.refl.children[i])
        } else {
            None
        }
    }
}

} // verus!
