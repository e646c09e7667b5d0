use vstd::prelude::*;

use crate::runtime::Runtime;

verus! {

/// A handle to a foreign type descriptor.
///
/// It is pointer-sized, like [`crate::object::PyObject`]. In this model type
/// descriptors are not themselves refcounted objects, so the handle carries
/// no ownership and is freely copyable.
#[derive(PartialEq, Eq, Structural, Clone, Copy)]
pub struct PyType {
    ty: usize,
}

impl PyType {
    /// The type-descriptor id this handle references.
    pub closed spec fn type_id(self) -> int {
        self.ty as int
    }

    pub(crate) fn from_raw_id(ty: usize) -> (t: PyType)
        ensures
            t.type_id() == ty as int,
    {
        PyType { ty }
    }

    /// Builds the handle for type descriptor `t` of the given runtime.
    pub fn from_type_id(rt: &Runtime, t: usize) -> (r: PyType)
        requires
            rt@.wf(),
            rt@.is_type(t as int),
        ensures
            r.type_id() == t as int,
    {
        PyType { ty: t }
    }

    /// The raw type-descriptor id.
    pub fn id(&self) -> (t: usize)
        ensures
            t as int == self.type_id(),
    {
        self.ty
    }

    /// Whether this type satisfies `other`, by walking base links.
    pub fn is_subtype_of(&self, rt: &Runtime, other: &PyType) -> (r: bool)
        requires
            rt@.wf(),
        ensures
            r == rt@.kind_le(self.type_id(), other.type_id()),
    {
        rt.kind_matches(self.ty, other.ty)
    }
}

} // verus!
