use vstd::prelude::*;

use crate::err::PythonObjectDowncastError;
use crate::object::PyObject;
use crate::python::PythonObject;
use crate::python::PythonObjectWithCheckedDowncast;
use crate::python::ToPythonPointer;
use crate::runtime::Runtime;
use crate::runtime::RuntimeModel;
use crate::typeobject::PyType;

verus! {

/// A handle statically declared to reference a foreign object whose dynamic
/// kind satisfies the type descriptor `KIND`.
///
/// `KIND` is the single per-variant declaration the casting protocol asks
/// for; the checked and unchecked casts, by value and by reference, are
/// derived from it generically. A checked cast guarantees `valid`; an
/// unchecked cast only transfers the pointer identity, and the caller is
/// answerable for the kind.
///
/// Ownership and lifecycle are those of [`PyObject`]: upcast with
/// `into_object` and release the generic handle.
#[derive(Debug)]
pub struct TypedObject<const KIND: usize> {
    ptr: usize,
}

impl<const KIND: usize> TypedObject<KIND> {
    /// The kind this variant requires.
    pub open spec fn expected_kind() -> int {
        KIND as int
    }

    /// The handle references a live object whose dynamic kind satisfies
    /// `KIND`.
    pub open spec fn valid(self, m: RuntimeModel) -> bool {
        m.live(self.obj_ptr()) && m.kind_le(m.type_of(self.obj_ptr()), KIND as int)
    }

    /// The type descriptor this variant requires.
    pub fn type_object(rt: &Runtime) -> (t: PyType)
        requires
            rt@.wf(),
            rt@.is_type(KIND as int),
        ensures
            t.type_id() == KIND as int,
    {
        PyType::from_type_id(rt, KIND)
    }
}

impl<const KIND: usize> PythonObject for TypedObject<KIND> {
    closed spec fn obj_ptr(self) -> int {
        self.ptr as int
    }

    fn as_object(&self) -> (r: PyObject) {
        PyObject::from_raw(self.ptr)
    }

    fn into_object(self) -> (r: PyObject) {
        PyObject::from_raw(self.ptr)
    }

    fn unchecked_downcast_from(obj: PyObject) -> (r: TypedObject<KIND>) {
        TypedObject { ptr: obj.steal_ptr() }
    }

    fn unchecked_downcast_borrow_from(obj: &PyObject) -> (r: TypedObject<KIND>) {
        TypedObject { ptr: obj.as_ptr() }
    }
}

impl<const KIND: usize> PythonObjectWithCheckedDowncast for TypedObject<KIND> {
    /// A kind is accepted when it satisfies `KIND` through the hierarchy.
    open spec fn accepts(m: RuntimeModel, kind: int) -> bool {
        m.kind_le(kind, KIND as int)
    }

    fn downcast_from(rt: &Runtime, obj: PyObject) -> (r: Result<
        TypedObject<KIND>,
        PythonObjectDowncastError,
    >) {
        let p: usize = obj.steal_ptr();
        let actual: usize = rt.type_id_of(p);
        if rt.kind_matches(actual, KIND) {
            Ok(TypedObject { ptr: p })
        } else {
            Err(PythonObjectDowncastError { expected: KIND, actual })
        }
    }

    fn downcast_borrow_from(rt: &Runtime, obj: &PyObject) -> (r: Result<
        TypedObject<KIND>,
        PythonObjectDowncastError,
    >) {
        let p: usize = obj.as_ptr();
        let actual: usize = rt.type_id_of(p);
        if rt.kind_matches(actual, KIND) {
            Ok(TypedObject { ptr: p })
        } else {
            Err(PythonObjectDowncastError { expected: KIND, actual })
        }
    }
}

impl<const KIND: usize> ToPythonPointer for TypedObject<KIND> {
    fn as_ptr(&self) -> (p: usize) {
        self.ptr
    }

    fn steal_ptr(self) -> (p: usize) {
        self.ptr
    }
}

} // verus!
