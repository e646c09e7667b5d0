//! A safety layer over objects that live in, and are reference-counted by, a
//! foreign managed runtime reached through opaque pointers.
//!
//! The foreign runtime is modelled by [`runtime::Runtime`]: a table of objects,
//! each with a refcount and a type descriptor, plus a table of type
//! descriptors organised in a single-inheritance hierarchy. A
//! [`object::PyObject`] handle owns exactly one counted reference to one such
//! object; constructing, cloning, releasing and casting handles is verified to
//! keep the runtime's refcount discipline.

pub mod conversion;
pub mod err;
pub mod object;
pub mod objectprotocol;
pub mod python;
pub mod runtime;
pub mod typedobject;
pub mod typeobject;
