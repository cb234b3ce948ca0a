//! A type-directed dependency-resolution container.
//!
//! A [`Container`](container::Container) maps type identities to providers:
//! a pre-built cloneable value, a zero-argument factory, or an auto-resolution
//! capability that recursively resolves its own dependencies. Resolution of an
//! unregistered type yields `None`; absence propagates outward without
//! fabricating values.
//!
//! The [`codegen`] module holds the constructor-scanning rules behind the
//! attribute that emits [`AutoResolvable`](container::AutoResolvable)
//! implementations; the syntactic shell around them lives outside the
//! library.

pub mod assembled;
pub mod codegen;
pub mod container;
pub mod erased;
pub mod keys;

pub use container::AutoResolvable;
pub use container::Container;
pub use container::Provider;
pub use keys::TypeKey;
pub use keys::TypeKeyed;
