//! Per-type registry keys.
//!
//! A [`TypeKey`] is the stable identity under which a provider for a concrete
//! type is stored: never inspected for structure, only compared. Two keys are
//! meant to be equal exactly when they identify the same concrete type, so
//! every program must give each registrable type a key of its own.

use vstd::prelude::*;

verus! {

/// Stable identity for a concrete type, used as the registry lookup key.
pub type TypeKey = u64;

/// A type that can be stored in and requested from a container.
///
/// The key must be unique per concrete type and stable for the container's
/// whole lifetime: implementations return a constant, and no two types in one
/// program may pick the same constant. The implementations in this module
/// reserve the keys below 256; keys chosen elsewhere must be 256 or above.
pub trait TypeKeyed: Sized + 'static {
    /// The type's key, as specifications see it.
    spec fn type_key_spec() -> TypeKey;

    /// The type's key at run time; agrees with the specification-level key.
    fn type_key() -> (k: TypeKey)
        ensures
            k == Self::type_key_spec(),
    ;
}

impl TypeKeyed for String {
    open spec fn type_key_spec() -> TypeKey {
        1
    }

    fn type_key() -> TypeKey {
        1
    }
}

impl TypeKeyed for bool {
    open spec fn type_key_spec() -> TypeKey {
        2
    }

    fn type_key() -> TypeKey {
        2
    }
}

impl TypeKeyed for u32 {
    open spec fn type_key_spec() -> TypeKey {
        3
    }

    fn type_key() -> TypeKey {
        3
    }
}

impl TypeKeyed for u64 {
    open spec fn type_key_spec() -> TypeKey {
        4
    }

    fn type_key() -> TypeKey {
        4
    }
}

impl TypeKeyed for i32 {
    open spec fn type_key_spec() -> TypeKey {
        5
    }

    fn type_key() -> TypeKey {
        5
    }
}

impl TypeKeyed for i64 {
    open spec fn type_key_spec() -> TypeKey {
        6
    }

    fn type_key() -> TypeKey {
        6
    }
}

impl TypeKeyed for usize {
    open spec fn type_key_spec() -> TypeKey {
        7
    }

    fn type_key() -> TypeKey {
        7
    }
}

} // verus!
