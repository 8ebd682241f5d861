//! Identify and compare types at run time, and print them.
//!
//! A [`TypeDef`] is made from a type parameter. It holds the identity that the
//! compiler gives to that type within this program. Two values are equal
//! exactly when they were made from the same type. The text of a `TypeDef` is
//! the text form of that identity: it is the same for every value made from
//! one type, and is not meant to be kept or compared across programs.
use core::any::TypeId;
use core::marker::PhantomData;
use std::borrow::Cow;
use vstd::prelude::*;
use vstd::std_specs::cmp::PartialEqSpec;

verus! {

#[verifier::external_type_specification]
#[verifier::external_body]
pub struct ExTypeId(TypeId);

/// The identity that the compiler gives to the type `T` within this program.
///
/// Verus knows nothing of its value but that it depends on `T` alone.
pub open spec fn type_key<T: ?Sized>() -> TypeId {
    arbitrary::<(PhantomData<T>, TypeId)>().1
}

/// Relies on `TypeId::of`: the same type always yields the same identity.
pub assume_specification<T: ?Sized + 'static>[ TypeId::of::<T> ]() -> (r: TypeId)
    ensures
        r == type_key::<T>(),
;

/// The text that `TypeId`'s `Debug` gives for an identity.
pub uninterp spec fn id_text(id: TypeId) -> Seq<char>;

/// Relies on `TypeId`'s `Debug`: its text depends on the identity alone.
#[verifier::external_body]
fn render_id(id: &TypeId) -> (r: String)
    ensures
        r@ == id_text(*id),
{
    format!("{:?}", id)
}

/// Relies on `==` of `TypeId`: it compares the identities themselves.
#[verifier::external_body]
fn same_id(a: &TypeId, b: &TypeId) -> (r: bool)
    ensures
        r == (*a == *b),
{
    *a == *b
}

/// Identifies a type.
///
/// Made by [`TypeDef::of`]; it holds the type's identity, fixed when the value
/// is made.
#[derive(Debug, Clone, Copy)]
pub struct TypeDef {
    id: TypeId,
}

impl TypeDef {
    /// The identity of the type that this value was made from.
    pub closed spec fn identity(self) -> TypeId {
        self.id
    }

    /// The value that [`TypeDef::of`] makes from `T`.
    pub closed spec fn spec_of<T: ?Sized>() -> TypeDef {
        TypeDef { id: type_key::<T>() }
    }

    /// This value was made from the type `T`.
    pub open spec fn is_type<T: ?Sized>(self) -> bool {
        self.identity() == type_key::<T>()
    }

    /// Both values were made from the same type.
    pub open spec fn same_type(self, other: TypeDef) -> bool {
        self.identity() == other.identity()
    }

    /// The text that stands for this value's type.
    pub open spec fn text(self) -> Seq<char> {
        id_text(self.identity())
    }

    /// Create a `TypeDef` from a type parameter.
    pub fn of<T: 'static>() -> (r: TypeDef)
        ensures
            r == TypeDef::spec_of::<T>(),
            r.is_type::<T>(),
    {
        TypeDef { id: TypeId::of::<T>() }
    }

    /// The `TypeId` of `T`, without making a `TypeDef`.
    pub fn id_of<T: 'static>() -> (r: TypeId)
        ensures
            r == type_key::<T>(),
    {
        TypeId::of::<T>()
    }

    /// The text that stands for `T`, without making a `TypeDef`.
    pub fn name_of<T: 'static>() -> (r: Cow<'static, str>)
        ensures
            r@ == id_text(type_key::<T>()),
    {
        let id = TypeId::of::<T>();
        Cow::Owned(render_id(&id))
    }

    /// Whether this value was made from the type `T`.
    pub fn is<T: 'static>(&self) -> (r: bool)
        ensures
            r == self.is_type::<T>(),
    {
        let id = TypeId::of::<T>();
        same_id(&self.id, &id)
    }

    /// The text that stands for the type this value was made from.
    pub fn get_str(&self) -> (r: Cow<'static, str>)
        ensures
            r@ == self.text(),
    {
        Cow::Owned(render_id(&self.id))
    }
}

impl PartialEq for TypeDef {
    fn eq(&self, other: &TypeDef) -> (r: bool)
        ensures
            r == self.same_type(*other),
    {
        same_id(&self.id, &other.id)
    }
}

impl vstd::std_specs::cmp::PartialEqSpecImpl for TypeDef {
    open spec fn obeys_eq_spec() -> bool {
        true
    }

    open spec fn eq_spec(&self, other: &TypeDef) -> bool {
        self.same_type(*other)
    }
}

/// A value made from `T` is recognised as a value of `T`.
pub proof fn lemma_of_is_own_type<T: ?Sized>()
    ensures
        TypeDef::spec_of::<T>().is_type::<T>(),
{
}

/// Any two values made from the same type `T`, whenever they were made, are
/// equal and give the same text.
pub proof fn lemma_same_type_equal<T: ?Sized>(a: TypeDef, b: TypeDef)
    requires
        a.is_type::<T>(),
        b.is_type::<T>(),
    ensures
        a.same_type(b),
        a.eq_spec(&b),
        a.text() == b.text(),
{
}

/// Equality of `TypeDef` values is reflexive, symmetric and transitive.
pub proof fn lemma_eq_equivalence(a: TypeDef, b: TypeDef, c: TypeDef)
    ensures
        a.eq_spec(&a),
        a.eq_spec(&b) == b.eq_spec(&a),
        a.eq_spec(&b) && b.eq_spec(&c) ==> a.eq_spec(&c),
{
}

/// The text of a value made from `T` is the text that [`TypeDef::name_of`]
/// gives for `T`, the same on every call.
pub proof fn lemma_text_of_type<T: ?Sized>(td: TypeDef)
    requires
        td.is_type::<T>(),
    ensures
        td.text() == id_text(type_key::<T>()),
{
}

} // verus!
