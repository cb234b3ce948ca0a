//! A worked capability implementation.
//!
//! The engine must work when a capability is written by hand, and a
//! hand-written one fixes what every capability does: gather each declared
//! dependency with [`Container::try_resolve`], in declaration order, and give
//! up on the first one that is absent. [`Assembled`] is such a capability
//! over two dependencies, with that absence propagation proved: when either
//! dependency type has no provider, the attempt yields `None`.

use crate::container::AutoResolvable;
use crate::container::Container;
use crate::keys::TypeKey;
use crate::keys::TypeKeyed;
use vstd::prelude::*;

verus! {

/// A value assembled from two resolved dependencies, in declaration order: a
/// `String` part and a `u32` count.
pub struct Assembled {
    /// The first dependency, as resolved.
    pub part: String,
    /// The second dependency, as resolved.
    pub count: u32,
}

impl Assembled {
    /// The one eligible constructor: no receiver, returns `Self`.
    pub fn assemble(part: String, count: u32) -> (assembled: Assembled)
        ensures
            assembled.part@ == part@,
            assembled.count == count,
    {
        Assembled { part, count }
    }

    /// Law: the first missing dependency aborts a capability attempt — if
    /// either dependency type has no registered provider, the whole attempt
    /// yields `None`, never a partially constructed value.
    pub fn attempt(container: &Container) -> (attempted: Option<Assembled>)
        ensures
            !container@.contains_key(<String as TypeKeyed>::type_key_spec())
                || !container@.contains_key(<u32 as TypeKeyed>::type_key_spec()) ==> attempted
                is None,
            attempted is Some ==> container@.contains_key(<String as TypeKeyed>::type_key_spec())
                && container@.contains_key(<u32 as TypeKeyed>::type_key_spec()),
    {
        let part = match container.try_resolve::<String>() {
            Some(part) => part,
            None => {
                return None;
            },
        };
        let count = match container.try_resolve::<u32>() {
            Some(count) => count,
            None => {
                return None;
            },
        };
        Some(Assembled::assemble(part, count))
    }
}

impl TypeKeyed for Assembled {
    open spec fn type_key_spec() -> TypeKey {
        8
    }

    fn type_key() -> TypeKey {
        8
    }
}

impl AutoResolvable for Assembled {
    fn try_resolve(container: &Container) -> Option<Assembled> {
        Assembled::attempt(container)
    }
}

} // verus!
