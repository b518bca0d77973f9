//! Reflected types, variables, attributes, and modifiers: each record holds
//! as plain values what the foreign reflection object reports, and every
//! accessor is a single read of the record.

use vstd::prelude::*;

use crate::abi::SlangModifierID;
use crate::abi::SlangResourceAccess;
use crate::abi::SlangResourceShape;
use crate::reflection::kinds::ScalarType;
use crate::reflection::kinds::TypeKind;
use crate::reflection::lemma_window_step;
use crate::reflection::program::Generic;
use crate::reflection::program::Shader;
use crate::reflection::spec_window;
use crate::SlangResult;
use crate::SLANG_E_INVALID_ARG;

verus! {

/// A modifier attached to a declaration, known only by its raw identifier.
pub struct Modifier {
    pub id: SlangModifierID,
}

/// One argument of a user attribute: the value classifications the facade
/// can hand out.
pub enum AttributeArgument {
    /// An integer argument.
    Int(i32),
    /// A string argument.
    Text(String),
}

/// A user attribute attached to a declaration: a name and its arguments.
pub struct Attribute {
    pub name: String,
    pub arguments: Vec<AttributeArgument>,
}

impl Attribute {
    /// Name of the attribute.
    pub fn name(&self) -> (r: &String)
        ensures
            r@ == self.name@,
    {
        &self.name
    }

    /// How many arguments the attribute carries.
    pub fn argument_count(&self) -> (r: usize)
        ensures
            r == self.arguments@.len(),
    {
        self.arguments.len()
    }

    /// The integer value of the argument at `index`: present exactly when
    /// the index is in range and that argument is an integer; any other
    /// request fails with a negative code.
    pub fn argument_value_int(&self, index: usize) -> (r: Result<i32, SlangResult>)
        ensures
            index < self.arguments@.len() ==> (self.arguments@[index as int] matches AttributeArgument::Int(v)
                ==> r == Result::<i32, SlangResult>::Ok(v)),
            !(index < self.arguments@.len() && self.arguments@[index as int] is Int) ==> (
            r matches Err(code) && code < 0),
    {
        if index < self.arguments.len() {
            match &self.arguments[index] {
                AttributeArgument::Int(v) => Ok(*v),
                AttributeArgument::Text(_) => Err(SLANG_E_INVALID_ARG),
            }
        } else {
            Err(SLANG_E_INVALID_ARG)
        }
    }

    /// The string value of the argument at `index`: present exactly when the
    /// index is in range and that argument is a string.
    pub fn argument_value_string(&self, index: usize) -> (r: Option<&String>)
        ensures
            index < self.arguments@.len() ==> (self.arguments@[index as int] matches AttributeArgument::Text(s)
                ==> (r matches Some(t) && t@ == s@)),
            !(index < self.arguments@.len() && self.arguments@[index as int] is Text) ==> r
                is None,
    {
        if index < self.arguments.len() {
            match &self.arguments[index] {
                AttributeArgument::Int(_) => None,
                AttributeArgument::Text(s) => Some(s),
            }
        } else {
            None
        }
    }
}

/// A reflected type: its classification, its shape, and its children.
pub struct Type {
    pub kind: TypeKind,
    pub name: String,
    pub scalar: ScalarType,
    pub element_count: usize,
    pub row_count: u32,
    pub column_count: u32,
    pub resource_shape: SlangResourceShape,
    pub resource_access: SlangResourceAccess,
    pub fields: Vec<Variable>,
    pub element_type: Option<Box<Type>>,
    pub resource_result_type: Option<Box<Type>>,
    pub user_attributes: Vec<Attribute>,
    pub generic_container: Option<Box<Generic>>,
}

impl Type {
    /// What sort of type this is.
    pub fn kind(&self) -> (r: TypeKind)
        ensures
            r == self.kind,
    {
        self.kind
    }

    /// Name of the type.
    pub fn name(&self) -> (r: &String)
        ensures
            r@ == self.name@,
    {
        &self.name
    }

    /// How many fields a structure type has.
    pub fn field_count(&self) -> (r: usize)
        ensures
            r == self.fields@.len(),
    {
        self.fields.len()
    }

    /// The field at `index`, absent when the index is out of range.
    pub fn field(&self, index: usize) -> (r: Option<&Variable>)
        ensures
            index < self.fields@.len() ==> r == Some(&self.fields@[index as int]),
            index >= self.fields@.len() ==> r is None,
    {
        if index < self.fields.len() {
            Some(&self.fields[index])
        } else {
            None
        }
    }

    /// A fresh iteration window over the fields.
    pub fn iter_field<'x>(&'x self) -> (r: TypeFieldIterator<'x>)
        ensures
            r.refl == self,
            r.current == 0,
            r.count == self.fields@.len(),
            r.spec_wf(),
    {
        TypeFieldIterator { refl: self, current: 0, count: self.fields.len() }
    }

    /// How many elements an array type has. The program layout argument is
    /// what resolves a specialization-dependent count in the foreign
    /// library; the count a record holds is already resolved.
    pub fn element_count(&self, reflection: Option<&Shader>) -> (r: usize)
        ensures
            r == self.element_count,
    {
        let _ = reflection;
        self.element_count
    }

    /// The element type of an array, vector, or matrix type.
    pub fn element_type(&self) -> (r: Option<&Type>)
        ensures
            self.element_type matches Some(t) ==> r == Some(&*t),
            self.element_type is None ==> r is None,
    {
        match &self.element_type {
            Some(t) => Some(&*t),
            None => None,
        }
    }

    /// How many rows a matrix type has.
    pub fn row_count(&self) -> (r: u32)
        ensures
            r == self.row_count,
    {
        self.row_count
    }

    /// How many columns a matrix or vector type has.
    pub fn column_count(&self) -> (r: u32)
        ensures
            r == self.column_count,
    {
        self.column_count
    }

    /// The scalar classification of a scalar, vector, or matrix type.
    pub fn scalar_type(&self) -> (r: ScalarType)
        ensures
            r == self.scalar,
    {
        self.scalar
    }

    /// The result type of a resource type, absent for other types.
    pub fn resource_result_type(&self) -> (r: Option<&Type>)
        ensures
            self.resource_result_type matches Some(t) ==> r == Some(&*t),
            self.resource_result_type is None ==> r is None,
    {
        match &self.resource_result_type {
            Some(t) => Some(&*t),
            None => None,
        }
    }

    /// The shape classification of a resource type.
    pub fn resource_shape(&self) -> (r: SlangResourceShape)
        ensures
            r == self.resource_shape,
    {
        self.resource_shape
    }

    /// The access classification of a resource type.
    pub fn resource_access(&self) -> (r: SlangResourceAccess)
        ensures
            r == self.resource_access,
    {
        self.resource_access
    }

    /// How many user attributes the type carries.
    pub fn user_attribute_count(&self) -> (r: usize)
        ensures
            r == self.user_attributes@.len(),
    {
        self.user_attributes.len()
    }

    /// The user attribute at `index`, absent when the index is out of range.
    pub fn user_attribute(&self, index: usize) -> (r: Option<&Attribute>)
        ensures
            index < self.user_attributes@.len() ==> r == Some(&self.user_attributes@[index as int]),
            index >= self.user_attributes@.len() ==> r is None,
    {
        if index < self.user_attributes.len() {
            Some(&self.user_attributes[index])
        } else {
            None
        }
    }

    /// A fresh iteration window over the user attributes.
    pub fn iter_user_attribute<'x>(&'x self) -> (r: TypeUserAttributeIterator<'x>)
        ensures
            r.refl == self,
            r.current == 0,
            r.count == self.user_attributes@.len(),
            r.spec_wf(),
    {
        TypeUserAttributeIterator { refl: self, current: 0, count: self.user_attributes.len() }
    }

    /// The first user attribute with the given name, absent when no
    /// attribute carries it.
    pub fn find_user_attribute_by_name(&self, name: &String) -> (r: Option<&Attribute>)
        ensures
            r matches Some(a) ==> exists|i: int|
                0 <= i < self.user_attributes@.len() && a == &self.user_attributes@[i]
                    && a.name@ == name@,
            r is None ==> forall|i: int|
                0 <= i < self.user_attributes@.len() ==> (#[trigger] self.user_attributes@[i]).name@
                    != name@,
    {
        find_attribute_by_name(&self.user_attributes, name)
    }

    /// The generic container the type was declared under, absent when it was
    /// declared under none.
    pub fn generic_container(&self) -> (r: Option<&Generic>)
        ensures
            self.generic_container matches Some(g) ==> r == Some(&*g),
            self.generic_container is None ==> r is None,
    {
        match &self.generic_container {
            Some(g) => Some(&*g),
            None => None,
        }
    }
}

/// The first attribute in the list whose name is `name`, absent when there
/// is no such attribute.
pub fn find_attribute_by_name<'x>(attributes: &'x Vec<Attribute>, name: &String) -> (r: Option<
    &'x Attribute,
>)
    ensures
        r matches Some(a) ==> exists|i: int|
            0 <= i < attributes@.len() && a == &attributes@[i] && a.name@ == name@,
        r is None ==> forall|i: int|
            0 <= i < attributes@.len() ==> (#[trigger] attributes@[i]).name@ != name@,
{
    let n = attributes.len();
    let mut i: usize = 0;
    while i < n
        invariant
            n == attributes@.len(),
            i <= n,
            forall|j: int| 0 <= j < i ==> (#[trigger] attributes@[j]).name@ != name@,
        decreases n - i,
    {
        if attributes[i].name == *name {
            return Some(&attributes[i]);
        }
        i = i + 1;
    }
    None
}

/// A reflected variable: a field, a parameter, or another declaration with a
/// name and a type.
pub struct Variable {
    pub name: String,
    pub ty: Box<Type>,
    pub modifiers: Vec<Modifier>,
    pub user_attributes: Vec<Attribute>,
    pub default_value: Option<i64>,
    pub generic_container: Option<Box<Generic>>,
}

impl Variable {
    /// Name of the variable.
    pub fn name(&self) -> (r: &String)
        ensures
            r@ == self.name@,
    {
        &self.name
    }

    /// The variable's type.
    pub fn ty(&self) -> (r: &Type)
        ensures
            r == &*self.ty,
    {
        &*self.ty
    }

    /// The modifier with the given identifier, absent when the variable does
    /// not carry it.
    pub fn find_modifier(&self, id: SlangModifierID) -> (r: Option<&Modifier>)
        ensures
            r matches Some(m) ==> exists|i: int|
                0 <= i < self.modifiers@.len() && m == &self.modifiers@[i] && m.id == id,
            r is None ==> forall|i: int|
                0 <= i < self.modifiers@.len() ==> (#[trigger] self.modifiers@[i]).id != id,
    {
        find_modifier_by_id(&self.modifiers, id)
    }

    /// How many user attributes the variable carries.
    pub fn user_attribute_count(&self) -> (r: usize)
        ensures
            r == self.user_attributes@.len(),
    {
        self.user_attributes.len()
    }

    /// The user attribute at `index`, absent when the index is out of range.
    pub fn user_attribute(&self, index: usize) -> (r: Option<&Attribute>)
        ensures
            index < self.user_attributes@.len() ==> r == Some(&self.user_attributes@[index as int]),
            index >= self.user_attributes@.len() ==> r is None,
    {
        if index < self.user_attributes.len() {
            Some(&self.user_attributes[index])
        } else {
            None
        }
    }

    /// A fresh iteration window over the user attributes.
    pub fn iter_user_attribute<'x>(&'x self) -> (r: VariableUserAttributeIterator<'x>)
        ensures
            r.refl == self,
            r.current == 0,
            r.count == self.user_attributes@.len(),
            r.spec_wf(),
    {
        VariableUserAttributeIterator { refl: self, current: 0, count: self.user_attributes.len() }
    }

    /// The first user attribute with the given name, absent when no
    /// attribute carries it.
    pub fn find_user_attribute_by_name(&self, name: &String) -> (r: Option<&Attribute>)
        ensures
            r matches Some(a) ==> exists|i: int|
                0 <= i < self.user_attributes@.len() && a == &self.user_attributes@[i]
                    && a.name@ == name@,
            r is None ==> forall|i: int|
                0 <= i < self.user_attributes@.len() ==> (#[trigger] self.user_attributes@[i]).name@
                    != name@,
    {
        find_attribute_by_name(&self.user_attributes, name)
    }

    /// Whether the variable declares a default value.
    pub fn has_default_value(&self) -> (r: bool)
        ensures
            r == (self.default_value is Some),
    {
        self.default_value.is_some()
    }

    /// The variable's integer default value: present exactly when one is
    /// declared; asking a variable without one fails with a negative code.
    pub fn default_value_int(&self) -> (r: Result<i64, SlangResult>)
        ensures
            self.default_value matches Some(v) ==> r == Result::<i64, SlangResult>::Ok(v),
            self.default_value is None ==> (r matches Err(code) && code < 0),
    {
        match &self.default_value {
            Some(v) => Ok(*v),
            None => Err(SLANG_E_INVALID_ARG),
        }
    }

    /// The generic container the variable was declared under, absent when it
    /// was declared under none.
    pub fn generic_container(&self) -> (r: Option<&Generic>)
        ensures
            self.generic_container matches Some(g) ==> r == Some(&*g),
            self.generic_container is None ==> r is None,
    {
        match &self.generic_container {
            Some(g) => Some(&*g),
            None => None,
        }
    }
}

/// The first modifier in the list with the given identifier, absent when
/// there is no such modifier.
pub fn find_modifier_by_id<'x>(modifiers: &'x Vec<Modifier>, id: SlangModifierID) -> (r: Option<
    &'x Modifier,
>)
    ensures
        r matches Some(m) ==> exists|i: int|
            0 <= i < modifiers@.len() && m == &modifiers@[i] && m.id == id,
        r is None ==> forall|i: int|
            0 <= i < modifiers@.len() ==> (#[trigger] modifiers@[i]).id != id,
{
    let n = modifiers.len();
    let mut i: usize = 0;
    while i < n
        invariant
            n == modifiers@.len(),
            i <= n,
            forall|j: int| 0 <= j < i ==> (#[trigger] modifiers@[j]).id != id,
        decreases n - i,
    {
        if modifiers[i].id == id {
            return Some(&modifiers[i]);
        }
        i = i + 1;
    }
    None
}

/// Iteration window over the fields of a type.
pub struct TypeFieldIterator<'x> {
    pub refl: &'x Type,
    pub current: usize,
    pub count: usize,
}

impl<'x> TypeFieldIterator<'x> {
    /// The indices this window has still to yield, in order.
    pub open spec fn spec_queue(self) -> Seq<int> {
        spec_window(self.current as int, self.count as int)
    }

    /// Holds when the window agrees with the owning record's collection.
    pub open spec fn spec_wf(self) -> bool {
        self.count == self.refl.fields@.len() && self.current <= self.count
    }

    /// The next field, in strictly increasing index order, or the absent
    /// option once the window is exhausted.
    pub fn next(&mut self) -> (r: Option<&'x Variable>)
        requires
            old(self).spec_wf(),
        ensures
            final(self).spec_wf(),
            final(self).refl == old(self).refl,
            old(self).spec_queue().len() > 0 ==> {
                &&& r == Some(&old(self).refl.fields@[old(self).spec_queue()[0]])
                &&& final(self).spec_queue() == old(self).spec_queue().drop_first()
            },
            old(self).spec_queue().len() == 0 ==> r is None && *final(self) == *old(self),
    {
        if self.current < self.count {
            let i = self.current;
            self.current = i + 1;
            proof {
                lemma_window_step(i as int, self.count as int);
            }
            Some(&self.refl.fields[i])
        } else {
            None
        }
    }
}

/// Iteration window over the user attributes of a type.
pub struct TypeUserAttributeIterator<'x> {
    pub refl: &'x Type,
    pub current: usize,
    pub count: usize,
}

impl<'x> TypeUserAttributeIterator<'x> {
    /// The indices this window has still to yield, in order.
    pub open spec fn spec_queue(self) -> Seq<int> {
        spec_window(self.current as int, self.count as int)
    }

    /// Holds when the window agrees with the owning record's collection.
    pub open spec fn spec_wf(self) -> bool {
        self.count == self.refl.user_attributes@.len() && self.current <= self.count
    }

    /// The next user attribute, in strictly increasing index order, or the
    /// absent option once the window is exhausted.
    pub fn next(&mut self) -> (r: Option<&'x Attribute>)
        requires
            old(self).spec_wf(),
        ensures
            final(self).spec_wf(),
            final(self).refl == old(self).refl,
            old(self).spec_queue().len() > 0 ==> {
                &&& r == Some(&old(self).refl.user_attributes@[old(self).spec_queue()[0]])
                &&& final(self).spec_queue() == old(self).spec_queue().drop_first()
            },
            old(self).spec_queue().len() == 0 ==> r is None && *final(self) == *old(self),
    {
        if self.current < self.count {
            let i = self.current;
            self.current = i + 1;
            proof {
                lemma_window_step(i as int, self.count as int);
            }
            Some(&self.refl.user_attributes[i])
        } else {
            None
        }
    }
}

/// Iteration window over the user attributes of a variable.
pub struct VariableUserAttributeIterator<'x> {
    pub refl: &'x Variable,
    pub current: usize,
    pub count: usize,
}

impl<'x> VariableUserAttributeIterator<'x> {
    /// The indices this window has still to yield, in order.
    pub open spec fn spec_queue(self) -> Seq<int> {
        spec_window(self.current as int, self.count as int)
    }

    /// Holds when the window agrees with the owning record's collection.
    pub open spec fn spec_wf(self) -> bool {
        self.count == self.refl.user_attributes@.len() && self.current <= self.count
    }

    /// The next user attribute, in strictly increasing index order, or the
    /// absent option once the window is exhausted.
    pub fn next(&mut self) -> (r: Option<&'x Attribute>)
        requires
            old(self).spec_wf(),
        ensures
            final(self).spec_wf(),
            final(self).refl == old(self).refl,
            old(self).spec_queue().len() > 0 ==> {
                &&& r == Some(&old(self).refl.user_attributes@[old(self).spec_queue()[0]])
                &&& final(self).spec_queue() == old(self).spec_queue().drop_first()
            },
            old(self).spec_queue().len() == 0 ==> r is None && *final(self) == *old(self),
    {
        if self.current < self.count {
            let i = self.current;
            self.current = i + 1;
            proof {
                lemma_window_step(i as int, self.count as int);
            }
            Some(&self.refl.user_attributes[i])
        } else {
            None
        }
    }
}

} // verus!
