//! Values whose concrete type is known only at run time.
//!
//! An observer is given back by concrete type through `std::any::Any`. Verus
//! has no notion of that trait, so a trait object of it cannot stand in a
//! verified signature. The three structs here carry one through verified
//! code, which never looks inside; an observer written elsewhere builds them
//! from the public field.
//!
//! What is known of such a value is the type that it was made from, by its
//! `TypeId`, and, where it was made here, the value itself.

use std::any::{Any, TypeId};
use vstd::prelude::*;

verus! {

/// `std::any::TypeId`, the identifier of one type.
#[verifier::external_type_specification]
#[verifier::external_body]
pub struct ExTypeId(TypeId);

/// A shared reference to a value of some type. Holds a `&dyn Any`.
#[verifier::external_body]
pub struct AnyRef<'a>(pub &'a dyn Any);

/// An exclusive reference to a value of some type. Holds a `&mut dyn Any`.
#[verifier::external_body]
pub struct AnyMut<'a>(pub &'a mut dyn Any);

/// An owned value of some type. Holds a `Box<dyn Any>`.
#[verifier::external_body]
pub struct AnyBox(pub Box<dyn Any>);

/// What `<dyn Any>::type_id` returns of the value that `seen` refers to: the
/// identifier of that value's type.
pub uninterp spec fn stored_type_ref(seen: AnyRef<'_>) -> TypeId;

/// What `<dyn Any>::type_id` returns of the value that `held` owns: the
/// identifier of that value's type.
pub uninterp spec fn stored_type_box(held: AnyBox) -> TypeId;

/// `TypeId::of::<T>()`: the identifier of `T`. Nothing is claimed of it here;
/// what makes it the identifier of `T` is that the conversions and the casts
/// below go by it.
#[verifier::external_body]
fn type_id_of<T: 'static>() -> TypeId {
    TypeId::of::<T>()
}

/// Forgets the type behind a shared reference: the unsizing of `&T` to
/// `&dyn Any`. The value referred to is of the type that `TypeId::of::<T>()`
/// identifies.
#[verifier::external_body]
fn any_ref<T: 'static>(value: &T) -> (seen: AnyRef<'_>)
    ensures
        forall|id: TypeId| #[trigger] names_type::<T>(id) ==> stored_type_ref(seen) == id,
{
    AnyRef(value)
}

/// Forgets the type behind an exclusive reference: the unsizing of `&mut T`
/// to `&mut dyn Any`. Nothing is claimed of the result.
#[verifier::external_body]
fn any_mut<T: 'static>(value: &mut T) -> AnyMut<'_> {
    AnyMut(value)
}

/// Forgets the type of an owned value: the unsizing of `Box<T>` to
/// `Box<dyn Any>`. The value owned is of the type that `TypeId::of::<T>()`
/// identifies.
#[verifier::external_body]
fn any_box<T: 'static>(value: Box<T>) -> (held: AnyBox)
    ensures
        forall|id: TypeId| #[trigger] names_type::<T>(id) ==> stored_type_box(held) == id,
{
    AnyBox(value)
}

/// `<dyn Any>::downcast_ref`: a reference to the value as a `T` where the
/// value is a `T`, nothing where it is of another type. It is a `T` exactly
/// where its type's identifier is `TypeId::of::<T>()`; and where `value`
/// came from forgetting the type of a `&T`, that reference comes back.
#[verifier::external_body]
fn downcast_ref<'a, T: 'static>(value: AnyRef<'a>) -> (found: Option<&'a T>)
    ensures
        forall|id: TypeId| #[trigger] names_type::<T>(id) ==> (found is Some <==> stored_type_ref(value) == id),
        forall|of: &T| #[trigger] forgets_ref::<T>(of, value) ==> found == Some(of),
{
    value.0.downcast_ref::<T>()
}

/// `Box<dyn Any>::downcast`: the value as a `Box<T>` where it is a `T`, the
/// untouched box back as the error where it is of another type. It is a `T`
/// exactly where its type's identifier is `TypeId::of::<T>()`; and where
/// `value` came from forgetting the type of a `Box<T>`, that box comes back.
#[verifier::external_body]
fn downcast<T: 'static>(value: AnyBox) -> (cast: Result<Box<T>, AnyBox>)
    ensures
        forall|id: TypeId| #[trigger] names_type::<T>(id) ==> (cast is Ok <==> stored_type_box(value) == id),
        forall|of: Box<T>| #[trigger] forgets_box::<T>(of, value) ==> cast is Ok && cast->Ok_0 == of,
{
    match value.0.downcast::<T>() {
        Ok(inner) => Ok(inner),
        Err(other) => Err(AnyBox(other)),
    }
}

/// `id` is what `TypeId::of::<T>()` gave: it identifies `T`.
pub closed spec fn names_type<T: 'static>(id: TypeId) -> bool {
    call_ensures(type_id_of::<T>, (), id)
}

/// `seen` is what forgetting the type of `value` gave.
pub closed spec fn forgets_ref<T: 'static>(value: &T, seen: AnyRef<'_>) -> bool {
    call_ensures(any_ref::<T>, (value,), seen)
}

/// `seen` is what forgetting the type of the lent `value` gave.
pub closed spec fn forgets_mut<T: 'static>(value: &mut T, seen: AnyMut<'_>) -> bool {
    call_ensures(any_mut::<T>, (value,), seen)
}

/// `held` is what forgetting the type of `value` gave.
pub closed spec fn forgets_box<T: 'static>(value: Box<T>, held: AnyBox) -> bool {
    call_ensures(any_box::<T>, (value,), held)
}

/// `found` is what the cast of `seen` to a `&T` gave.
pub closed spec fn cast_ref_gives<T: 'static>(seen: AnyRef<'_>, found: Option<&T>) -> bool {
    call_ensures(downcast_ref::<T>, (seen,), found)
}

/// `cast` is what the cast of `held` to a `Box<T>` gave.
pub closed spec fn cast_gives<T: 'static>(held: AnyBox, cast: Result<Box<T>, AnyBox>) -> bool {
    call_ensures(downcast::<T>, (held,), cast)
}

/// A value whose type was forgotten is of the type that it was made from.
pub proof fn forgotten_ref_is_typed<T: 'static>(value: &T, seen: AnyRef<'_>, id: TypeId)
    requires
        forgets_ref::<T>(value, seen),
        names_type::<T>(id),
    ensures
        stored_type_ref(seen) == id,
{
}

/// A boxed value whose type was forgotten is of the type that it was made
/// from.
pub proof fn forgotten_box_is_typed<T: 'static>(value: Box<T>, held: AnyBox, id: TypeId)
    requires
        forgets_box::<T>(value, held),
        names_type::<T>(id),
    ensures
        stored_type_box(held) == id,
{
}

/// The identifier of `T`.
pub fn type_of<T: 'static>() -> (id: TypeId)
    ensures
        names_type::<T>(id),
{
    type_id_of::<T>()
}

/// `value` as a reference to a value of any type.
pub fn forget_ref<T: 'static>(value: &T) -> (seen: AnyRef<'_>)
    ensures
        forgets_ref::<T>(value, seen),
{
    any_ref(value)
}

/// The lent `value` as a reference to a value of any type.
pub fn forget_mut<T: 'static>(value: &mut T) -> (seen: AnyMut<'_>)
    ensures
        (exists|lent: &mut T|
            #![trigger forgets_mut::<T>(lent, seen)]
            *lent == *old(value) && forgets_mut::<T>(lent, seen)),
{
    let seen = any_mut(value);
    proof {
        let lent = choose|lent: &mut T|
            #![trigger call_ensures(any_mut::<T>, (lent,), seen)]
            *lent == *old(value) && call_ensures(any_mut::<T>, (lent,), seen);
        assert(forgets_mut::<T>(lent, seen));
    }
    seen
}

/// The boxed `value` as a boxed value of any type.
pub fn forget_box<T: 'static>(value: Box<T>) -> (held: AnyBox)
    ensures
        forgets_box::<T>(value, held),
{
    any_box(value)
}

/// `seen` as a `&T`, where the value that it refers to is a `T`.
pub fn cast_ref<'a, T: 'static>(seen: AnyRef<'a>) -> (found: Option<&'a T>)
    ensures
        cast_ref_gives::<T>(seen, found),
        forall|id: TypeId| #[trigger] names_type::<T>(id) ==> (found is Some <==> stored_type_ref(seen) == id),
        forall|of: &T| #[trigger] forgets_ref::<T>(of, seen) ==> found == Some(of),
{
    downcast_ref::<T>(seen)
}

/// `held` as a `Box<T>`, where the value that it owns is a `T`; `held` back
/// where it is not.
pub fn cast<T: 'static>(held: AnyBox) -> (cast: Result<Box<T>, AnyBox>)
    ensures
        cast_gives::<T>(held, cast),
        forall|id: TypeId| #[trigger] names_type::<T>(id) ==> (cast is Ok <==> stored_type_box(held) == id),
        forall|of: Box<T>| #[trigger] forgets_box::<T>(of, held) ==> cast is Ok && cast->Ok_0 == of,
{
    downcast::<T>(held)
}

} // verus!
