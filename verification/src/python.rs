use vstd::prelude::*;

use crate::err::PythonObjectDowncastError;
use crate::object::PyObject;
use crate::runtime::Runtime;
use crate::runtime::RuntimeModel;

verus! {

/// A handle type that references one foreign object.
///
/// Every implementor is a pointer-sized wrapper around a foreign pointer
/// identity, reported by `obj_ptr`, so a value can always be turned into the
/// generic [`PyObject`] handle: upcasts are total, keep the pointer identity,
/// and touch no refcount.
pub trait PythonObject: Sized {
    /// The pointer identity of the referenced foreign object.
    spec fn obj_ptr(self) -> int;

    /// Borrows this handle as a generic one: a non-owning view sharing the
    /// referenced object, which must not be released.
    fn as_object(&self) -> (r: PyObject)
        ensures
            r.ptr_id() == self.obj_ptr(),
    ;

    /// Upcasts this handle into a generic one, transferring ownership of the
    /// reference. Never fails.
    fn into_object(self) -> (r: PyObject)
        ensures
            r.ptr_id() == self.obj_ptr(),
    ;

    /// Reinterprets a generic handle as this variant without verifying the
    /// foreign object's dynamic kind. The caller must already have
    /// established, by construction or a prior check, that the kind matches;
    /// nothing about the kind is known of the result otherwise.
    fn unchecked_downcast_from(obj: PyObject) -> (r: Self)
        ensures
            r.obj_ptr() == obj.ptr_id(),
    ;

    /// Like `unchecked_downcast_from`, but produces a non-owning view and
    /// leaves ownership with the given handle.
    fn unchecked_downcast_borrow_from(obj: &PyObject) -> (r: Self)
        ensures
            r.obj_ptr() == obj.ptr_id(),
    ;
}

/// A handle type whose required dynamic kind can be checked before a
/// downcast.
///
/// The one per-variant declaration is `accepts`: which dynamic kinds satisfy
/// the variant. The checked casts are answerable to it: a downcast succeeds
/// exactly when the object's kind is accepted, keeps the pointer identity,
/// and on failure reports the actual kind; neither outcome changes any
/// refcount.
pub trait PythonObjectWithCheckedDowncast: PythonObject {
    /// Which dynamic kinds satisfy this variant in runtime state `m`.
    spec fn accepts(m: RuntimeModel, kind: int) -> bool;

    /// Checked downcast taking ownership of the handle.
    fn downcast_from(rt: &Runtime, obj: PyObject) -> (r: Result<
        Self,
        PythonObjectDowncastError,
    >)
        requires
            rt@.wf(),
            obj.valid(rt@),
        ensures
            (r is Ok) == Self::accepts(rt@, rt@.type_of(obj.ptr_id())),
            r matches Ok(t) ==> t.obj_ptr() == obj.ptr_id(),
            r matches Err(e) ==> e.actual_kind() == rt@.type_of(obj.ptr_id()),
    ;

    /// Checked downcast to a non-owning view, leaving ownership with the
    /// given handle.
    fn downcast_borrow_from(rt: &Runtime, obj: &PyObject) -> (r: Result<
        Self,
        PythonObjectDowncastError,
    >)
        requires
            rt@.wf(),
            obj.valid(rt@),
        ensures
            (r is Ok) == Self::accepts(rt@, rt@.type_of(obj.ptr_id())),
            r matches Ok(t) ==> t.obj_ptr() == obj.ptr_id(),
            r matches Err(e) ==> e.actual_kind() == rt@.type_of(obj.ptr_id()),
    ;
}

/// Raw pointer access to a handle.
pub trait ToPythonPointer: PythonObject {
    /// The raw pointer identity, without touching ownership.
    fn as_ptr(&self) -> (p: usize)
        ensures
            p as int == self.obj_ptr(),
    ;

    /// Consumes the handle and hands its pointer identity back: the caller
    /// re-assumes ownership of the reference and this layer will never
    /// decrement it.
    fn steal_ptr(self) -> (p: usize)
        ensures
            p as int == self.obj_ptr(),
    ;
}

} // verus!
