//! Type-erased payload slots.
//!
//! The registry must hold providers for unrelated concrete types in one
//! collection, so each provider's working part is stored as an opaque,
//! type-erased slot. A slot is built from a concrete type `V` and can be
//! recovered only by a request for that same `V`: the erasure relies on
//! `core::any`, whose run-time type identity check makes a mismatched
//! recovery yield `None` rather than a value of the wrong type.
//!
//! What a slot was built for is tracked by the specification-level
//! [`slot_key`]; the functions here are the only ones that speak for it.

use core::any::Any;

use crate::container::Container;
use crate::keys::TypeKey;
use crate::keys::TypeKeyed;
use vstd::prelude::*;

verus! {

/// An opaque, type-erased payload.
///
/// Holds a `Box<dyn core::any::Any>`, which Verus cannot model directly, so
/// the whole struct is opaque; its meaning is carried by [`slot_key`] through
/// the contracts of the functions below.
#[verifier::external_body]
pub struct ErasedSlot {
    inner: Box<dyn Any>,
}

/// The key of the type a slot's payload was built for.
pub uninterp spec fn slot_key(slot: ErasedSlot) -> TypeKey;

/// Erases a zero-argument producer of `V` values.
///
/// Relies on `Box<dyn Fn() -> V>` and `core::any::Any`: the producer is boxed
/// under that erased type, which only a later request for `V` names again.
#[verifier::external_body]
pub(crate) fn make_producer_slot<V: TypeKeyed, F: Fn() -> V + 'static>(producer: F) -> (slot:
    ErasedSlot)
    requires
        call_requires(producer, ()),
    ensures
        slot_key(slot) == V::type_key_spec(),
{
    ErasedSlot { inner: Box::new(Box::new(producer) as Box<dyn Fn() -> V>) }
}

/// Runs the producer stored in a slot, if the slot was built for `V`.
///
/// Relies on `core::any::Any::downcast_ref`: a payload stored under any type
/// other than `Box<dyn Fn() -> V>` yields `None`, never a value of the wrong
/// type.
#[verifier::external_body]
pub(crate) fn invoke_producer<V: TypeKeyed>(slot: &ErasedSlot) -> (produced: Option<V>)
    ensures
        produced is Some ==> slot_key(*slot) == V::type_key_spec(),
{
    match slot.inner.downcast_ref::<Box<dyn Fn() -> V>>() {
        Some(producer) => Some(producer()),
        None => None,
    }
}

/// Erases a resolver that attempts to produce a `V` from a container.
///
/// Relies on `Box<dyn Fn(&Container) -> Option<V>>` and `core::any::Any`, as
/// [`make_producer_slot`] does for its own erased type.
#[verifier::external_body]
pub(crate) fn make_invoker_slot<V: TypeKeyed, F: Fn(&Container) -> Option<V> + 'static>(
    invoker: F,
) -> (slot: ErasedSlot)
    requires
        forall|container: &Container| call_requires(invoker, (container,)),
    ensures
        slot_key(slot) == V::type_key_spec(),
{
    ErasedSlot { inner: Box::new(Box::new(invoker) as Box<dyn Fn(&Container) -> Option<V>>) }
}

/// Runs the resolver stored in a slot against a container, if the slot was
/// built for `V`.
///
/// Relies on `core::any::Any::downcast_ref` exactly as [`invoke_producer`]
/// does: a mismatched slot yields `None`.
#[verifier::external_body]
pub(crate) fn invoke_resolver<V: TypeKeyed>(slot: &ErasedSlot, container: &Container) -> (resolved:
    Option<V>)
    ensures
        resolved is Some ==> slot_key(*slot) == V::type_key_spec(),
{
    match slot.inner.downcast_ref::<Box<dyn Fn(&Container) -> Option<V>>>() {
        Some(invoker) => invoker(container),
        None => None,
    }
}

} // verus!
