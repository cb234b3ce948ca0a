//! The registry and the resolution engine.
//!
//! A [`Container`] owns a registry that maps a [`TypeKey`] to exactly one
//! [`Provider`]. Registration always succeeds and overwrites any earlier
//! provider for the same key; resolution of an unregistered key yields `None`
//! with no side effect on the registry.

use std::collections::HashMap;

use crate::erased::invoke_producer;
use crate::erased::invoke_resolver;
use crate::erased::make_invoker_slot;
use crate::erased::make_producer_slot;
use crate::erased::slot_key;
use crate::erased::ErasedSlot;
use crate::keys::TypeKey;
use crate::keys::TypeKeyed;
use vstd::prelude::*;

verus! {

broadcast use vstd::std_specs::hash::group_hash_axioms;

/// A stored strategy for producing a value of one specific type on demand.
pub enum Provider {
    /// A pre-built value, cloned afresh on every resolution.
    Cloned(ErasedSlot),
    /// A zero-argument factory, invoked once per resolution.
    Factory(ErasedSlot),
    /// An auto-resolution capability, invoked with the container so that it
    /// can resolve its own dependencies.
    Auto(ErasedSlot),
}

impl Provider {
    /// The provider's type-erased working part.
    pub open spec fn payload(self) -> ErasedSlot {
        match self {
            Provider::Cloned(slot) => slot,
            Provider::Factory(slot) => slot,
            Provider::Auto(slot) => slot,
        }
    }
}

/// The capability contract: attempt to produce an instance of `Self` from a
/// container, resolving each dependency in declaration order and returning
/// `None` as soon as one dependency is missing. Implemented by hand or by a
/// source generator; resolution attempts have no side effect on the registry.
pub trait AutoResolvable: Sized {
    /// Attempts construction; `None` means some dependency was unresolved.
    fn try_resolve(container: &Container) -> Option<Self>;
}

/// The public facade: registration and resolution over an exclusively owned
/// registry. Its view is the registry as a map from key to provider.
pub struct Container {
    providers: HashMap<TypeKey, Provider>,
}

impl View for Container {
    type V = Map<TypeKey, Provider>;

    closed spec fn view(&self) -> Map<TypeKey, Provider> {
        self.providers@
    }
}

impl Container {
    /// Every registry entry's payload was erased from the very type whose key
    /// it is stored under: the invariant that makes restoration type-sound.
    pub open spec fn key_coherent(&self) -> bool {
        forall|k: TypeKey| #[trigger]
            self@.dom().contains(k) ==> slot_key(self@[k].payload()) == k
    }

    /// Creates a container with an empty registry.
    pub fn new() -> (container: Container)
        ensures
            container@ == Map::<TypeKey, Provider>::empty(),
            container.key_coherent(),
    {
        Container { providers: HashMap::new() }
    }

    /// Stores a cloned-value provider for `V`: every resolution of `V` will
    /// return a fresh clone of `value`. Overwrites any provider for `V`.
    pub fn register_clone<V: TypeKeyed + Clone>(&mut self, value: V)
        requires
            old(self).key_coherent(),
        ensures
            final(self).key_coherent(),
            exists|slot: ErasedSlot|
                slot_key(slot) == V::type_key_spec() && final(self)@ == old(self)@.insert(
                    V::type_key_spec(),
                    Provider::Cloned(slot),
                ),
            final(self)@.contains_key(V::type_key_spec()),
            final(self)@[V::type_key_spec()] is Cloned,
    {
        let slot = make_producer_slot::<V, _>(move || value.clone());
        self.insert_slot(V::type_key(), Provider::Cloned(slot));
    }

    /// Stores a factory provider for `V`: every resolution of `V` will invoke
    /// `factory` once, afresh. Overwrites any provider for `V`.
    pub fn register_factory<V: TypeKeyed, F: Fn() -> V + 'static>(&mut self, factory: F)
        requires
            old(self).key_coherent(),
            call_requires(factory, ()),
        ensures
            final(self).key_coherent(),
            exists|slot: ErasedSlot|
                slot_key(slot) == V::type_key_spec() && final(self)@ == old(self)@.insert(
                    V::type_key_spec(),
                    Provider::Factory(slot),
                ),
            final(self)@.contains_key(V::type_key_spec()),
            final(self)@[V::type_key_spec()] is Factory,
    {
        let slot = make_producer_slot::<V, _>(factory);
        self.insert_slot(V::type_key(), Provider::Factory(slot));
    }

    /// Stores an auto-resolution provider for `V`: every resolution of `V`
    /// will invoke `V`'s capability with this container. Overwrites any
    /// provider for `V`.
    pub fn register_autoresolvable<V: TypeKeyed + AutoResolvable>(&mut self)
        requires
            old(self).key_coherent(),
        ensures
            final(self).key_coherent(),
            exists|slot: ErasedSlot|
                slot_key(slot) == V::type_key_spec() && final(self)@ == old(self)@.insert(
                    V::type_key_spec(),
                    Provider::Auto(slot),
                ),
            final(self)@.contains_key(V::type_key_spec()),
            final(self)@[V::type_key_spec()] is Auto,
    {
        let slot = make_invoker_slot::<V, _>(|container: &Container| V::try_resolve(container));
        self.insert_slot(V::type_key(), Provider::Auto(slot));
    }

    /// Resolves `D` eagerly — now, through `D`'s own capability, not through
    /// the registry — applies `adapter` to the outcome, and stores the result
    /// as a cloned-value provider for `R`. A provider registered for `D`'s
    /// dependencies after this call cannot retroactively change the stored
    /// result.
    pub fn register_autoresolved<
        D: AutoResolvable,
        R: TypeKeyed + Clone,
        F: Fn(Option<D>) -> R,
    >(&mut self, adapter: F)
        requires
            old(self).key_coherent(),
            forall|resolved: Option<D>| call_requires(adapter, (resolved,)),
        ensures
            final(self).key_coherent(),
            exists|slot: ErasedSlot|
                slot_key(slot) == R::type_key_spec() && final(self)@ == old(self)@.insert(
                    R::type_key_spec(),
                    Provider::Cloned(slot),
                ),
            final(self)@.contains_key(R::type_key_spec()),
            final(self)@[R::type_key_spec()] is Cloned,
    {
        let resolved: Option<D> = D::try_resolve(&*self);
        let adapted: R = adapter(resolved);
        self.register_clone(adapted);
    }

    /// Looks up `V`'s provider and invokes it: a cloned value is duplicated, a
    /// factory is called, a capability is invoked with this container. An
    /// unregistered key yields `None`; a present result can only come from
    /// the entry stored under `V`'s own key, whose payload was erased from
    /// `V`'s key.
    pub fn resolve<V: TypeKeyed>(&self) -> (resolved: Option<V>)
        ensures
            !self@.contains_key(V::type_key_spec()) ==> resolved is None,
            resolved is Some ==> self@.contains_key(V::type_key_spec()) && slot_key(
                self@[V::type_key_spec()].payload(),
            ) == V::type_key_spec(),
    {
        let key = V::type_key();
        match self.providers.get(&key) {
            None => None,
            Some(provider) => match provider {
                Provider::Cloned(slot) => invoke_producer::<V>(slot),
                Provider::Factory(slot) => invoke_producer::<V>(slot),
                Provider::Auto(slot) => invoke_resolver::<V>(slot, self),
            },
        }
    }

    /// Identical to [`Container::resolve`]; the distinct name lets capability
    /// implementations gather their dependencies with early return on the
    /// first missing one.
    pub fn try_resolve<V: TypeKeyed>(&self) -> (resolved: Option<V>)
        ensures
            !self@.contains_key(V::type_key_spec()) ==> resolved is None,
            resolved is Some ==> self@.contains_key(V::type_key_spec()) && slot_key(
                self@[V::type_key_spec()].payload(),
            ) == V::type_key_spec(),
    {
        self.resolve::<V>()
    }

    /// Inserts one entry whose payload was erased from the type keyed `key`,
    /// keeping the registry coherent.
    fn insert_slot(&mut self, key: TypeKey, provider: Provider)
        requires
            old(self).key_coherent(),
            slot_key(provider.payload()) == key,
        ensures
            final(self).key_coherent(),
            final(self)@ == old(self)@.insert(key, provider),
    {
        self.providers.insert(key, provider);
        assert forall|k: TypeKey| #[trigger] self@.dom().contains(k) implies slot_key(
            self@[k].payload(),
        ) == k by {
            if k != key {
                assert(old(self)@.dom().contains(k));
            }
        }
    }
}

/// Law: re-registering a provider for the same key overwrites the previous
/// one — two registrations under one key leave the registry exactly as the
/// second alone would have left it, and the entry under that key is the
/// second provider.
pub proof fn lemma_reregistration_overwrites(
    registry: Map<TypeKey, Provider>,
    key: TypeKey,
    first: Provider,
    second: Provider,
)
    ensures
        registry.insert(key, first).insert(key, second) == registry.insert(key, second),
        registry.insert(key, first).insert(key, second)[key] == second,
{
    assert(registry.insert(key, first).insert(key, second) =~= registry.insert(key, second));
}

} // verus!
