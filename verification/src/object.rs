use vstd::prelude::*;

use crate::conversion::FromPyObject;
use crate::err::PyErr;
use crate::err::PythonObjectDowncastError;
use crate::python::PythonObject;
use crate::python::PythonObjectWithCheckedDowncast;
use crate::python::ToPythonPointer;
use crate::runtime::Runtime;
use crate::runtime::RuntimeModel;
use crate::typeobject::PyType;

verus! {

/// A handle owning exactly one counted reference to a foreign object.
///
/// The handle is one pointer wide: its only field is the pointer identity of
/// the referenced object. Two handles are equal exactly when their pointer
/// identities are, whatever the referenced values.
///
/// While a handle is live it accounts for one increment of the object's
/// refcount. Construction either adopts a reference the caller already owns
/// (`from_owned_ptr`, no increment) or shares one it does not
/// (`from_borrowed_ptr`, one increment); `release` gives the reference up
/// with exactly one decrement, and consumes the handle, so a reference can
/// never be given up twice through the same handle.
#[derive(PartialEq, Eq, Structural, Debug)]
pub struct PyObject {
    ptr: usize,
}

impl PyObject {
    /// The pointer identity of the referenced foreign object.
    pub closed spec fn ptr_id(self) -> int {
        self.ptr as int
    }

    /// The handle references a live object of runtime state `m`.
    pub open spec fn valid(self, m: RuntimeModel) -> bool {
        m.live(self.ptr_id())
    }

    pub(crate) fn from_raw(ptr: usize) -> (r: PyObject)
        ensures
            r.ptr_id() == ptr as int,
    {
        PyObject { ptr }
    }

    /// Creates a handle for the given foreign pointer, adopting the reference
    /// the caller already owns: no increment is performed, and releasing the
    /// handle will perform the matching decrement.
    pub fn from_owned_ptr(rt: &Runtime, ptr: usize) -> (r: PyObject)
        requires
            rt@.wf(),
            rt@.live(ptr as int),
        ensures
            r.ptr_id() == ptr as int,
    {
        PyObject { ptr }
    }

    /// Creates a handle for a foreign pointer the caller does not own:
    /// exactly one increment is performed, and the handle owns the freshly
    /// created reference.
    pub fn from_borrowed_ptr(rt: &mut Runtime, ptr: usize) -> (r: PyObject)
        requires
            old(rt)@.wf(),
            old(rt)@.live(ptr as int),
            old(rt)@.refcnt_of(ptr as int) < usize::MAX,
        ensures
            r.ptr_id() == ptr as int,
            final(rt)@ == old(rt)@.after_incref(ptr as int),
            final(rt)@.wf(),
            r.valid(final(rt)@),
    {
        rt.incref(ptr);
        PyObject { ptr }
    }

    /// Like `from_owned_ptr`, but returns no handle for the null pointer,
    /// without touching any refcount.
    pub fn from_owned_ptr_opt(rt: &Runtime, ptr: usize) -> (r: Option<PyObject>)
        requires
            rt@.wf(),
            ptr != 0 ==> rt@.live(ptr as int),
        ensures
            ptr == 0 ==> r is None,
            ptr != 0 ==> (r matches Some(h) && h.ptr_id() == ptr as int),
    {
        if ptr == 0 {
            None
        } else {
            Some(PyObject::from_owned_ptr(rt, ptr))
        }
    }

    /// Like `from_borrowed_ptr`, but returns no handle for the null pointer,
    /// without touching any refcount.
    pub fn from_borrowed_ptr_opt(rt: &mut Runtime, ptr: usize) -> (r: Option<PyObject>)
        requires
            old(rt)@.wf(),
            ptr != 0 ==> old(rt)@.live(ptr as int),
            ptr != 0 ==> old(rt)@.refcnt_of(ptr as int) < usize::MAX,
        ensures
            ptr == 0 ==> r is None && final(rt)@ == old(rt)@,
            ptr != 0 ==> (r matches Some(h) && h.ptr_id() == ptr as int && final(rt)@ == old(
                rt,
            )@.after_incref(ptr as int)),
            final(rt)@.wf(),
    {
        if ptr == 0 {
            None
        } else {
            Some(PyObject::from_borrowed_ptr(rt, ptr))
        }
    }

    /// Produces a non-owning view of the object behind an owned pointer slot,
    /// for read-only access without any refcount traffic. The view must not
    /// be released: the reference stays with the slot's owner.
    pub fn borrow_from_owned_ptr(rt: &Runtime, ptr: usize) -> (r: PyObject)
        requires
            rt@.wf(),
            rt@.live(ptr as int),
        ensures
            r.ptr_id() == ptr as int,
            r.valid(rt@),
    {
        PyObject { ptr }
    }

    /// Produces non-owning views over a whole sequence of owned pointer
    /// slots, one view per slot, without any refcount traffic.
    pub fn borrow_from_owned_ptr_slice(rt: &Runtime, ptrs: &[usize]) -> (r: Vec<PyObject>)
        requires
            rt@.wf(),
            forall|i: int| 0 <= i < ptrs@.len() ==> rt@.live((#[trigger] ptrs@[i]) as int),
        ensures
            r@.len() == ptrs@.len(),
            forall|i: int| 0 <= i < r@.len() ==> (#[trigger] r@[i]).ptr_id() == ptrs@[i] as int,
    {
        let mut out: Vec<PyObject> = Vec::new();
        let mut i: usize = 0;
        while i < ptrs.len()
            invariant
                i <= ptrs@.len(),
                out@.len() == i as int,
                forall|j: int| 0 <= j < i as int ==> (#[trigger] out@[j]).ptr_id() == ptrs@[j] as int,
            decreases ptrs@.len() - i as int,
        {
            let p: usize = ptrs[i];
            out.push(PyObject { ptr: p });
            i = i + 1;
        }
        out
    }

    /// Duplicates the handle: one increment, then a new handle owning the
    /// fresh reference to the same object. Never fails.
    pub fn clone_ref(&self, rt: &mut Runtime) -> (r: PyObject)
        requires
            old(rt)@.wf(),
            self.valid(old(rt)@),
            old(rt)@.refcnt_of(self.ptr_id()) < usize::MAX,
        ensures
            r.ptr_id() == self.ptr_id(),
            final(rt)@ == old(rt)@.after_incref(self.ptr_id()),
            final(rt)@.wf(),
            r.valid(final(rt)@),
            self.valid(final(rt)@),
    {
        rt.incref(self.ptr);
        PyObject { ptr: self.ptr }
    }

    /// Gives the owned reference up: exactly one decrement. Consuming the
    /// handle makes a second decrement through it unrepresentable. A
    /// decrement that reaches 0 destroys the foreign object.
    pub fn release(self, rt: &mut Runtime)
        requires
            old(rt)@.wf(),
            self.valid(old(rt)@),
        ensures
            final(rt)@ == old(rt)@.after_decref(self.ptr_id()),
            final(rt)@.wf(),
    {
        rt.decref(self.ptr);
    }

    /// Reads the foreign runtime's current refcount for the referenced
    /// object. No side effects.
    pub fn get_refcnt(&self, rt: &Runtime) -> (r: usize)
        requires
            rt@.wf(),
            self.valid(rt@),
        ensures
            r as int == rt@.refcnt_of(self.ptr_id()),
    {
        rt.refcnt(self.ptr)
    }

    /// Reads the type descriptor of the referenced object.
    pub fn get_type(&self, rt: &Runtime) -> (t: PyType)
        requires
            rt@.wf(),
            self.valid(rt@),
        ensures
            t.type_id() == rt@.type_of(self.ptr_id()),
    {
        PyType::from_raw_id(rt.type_id_of(self.ptr))
    }

    /// Reinterprets the handle as the variant `T` without checking the
    /// object's dynamic kind; the caller must have established the kind
    /// already. Ownership of the reference moves into the result.
    pub fn unchecked_cast_into<T: PythonObject>(self) -> (r: T)
        ensures
            r.obj_ptr() == self.ptr_id(),
    {
        T::unchecked_downcast_from(self)
    }

    /// Casts the handle into the variant `T` after checking the object's
    /// dynamic kind against what `T` accepts. Succeeds exactly when the kind
    /// is accepted; on failure the error reports the actual kind. No refcount
    /// changes either way.
    pub fn cast_into<T: PythonObjectWithCheckedDowncast>(self, rt: &Runtime) -> (r: Result<
        T,
        PythonObjectDowncastError,
    >)
        requires
            rt@.wf(),
            self.valid(rt@),
        ensures
            (r is Ok) == T::accepts(rt@, rt@.type_of(self.ptr_id())),
            r matches Ok(t) ==> t.obj_ptr() == self.ptr_id(),
            r matches Err(e) ==> e.actual_kind() == rt@.type_of(self.ptr_id()),
    {
        T::downcast_from(rt, self)
    }

    /// Like `unchecked_cast_into`, but produces a non-owning view and leaves
    /// ownership with this handle.
    pub fn unchecked_cast_as<T: PythonObject>(&self) -> (r: T)
        ensures
            r.obj_ptr() == self.ptr_id(),
    {
        T::unchecked_downcast_borrow_from(self)
    }

    /// Like `cast_into`, but produces a non-owning view and leaves ownership
    /// with this handle.
    pub fn cast_as<T: PythonObjectWithCheckedDowncast>(&self, rt: &Runtime) -> (r: Result<
        T,
        PythonObjectDowncastError,
    >)
        requires
            rt@.wf(),
            self.valid(rt@),
        ensures
            (r is Ok) == T::accepts(rt@, rt@.type_of(self.ptr_id())),
            r matches Ok(t) ==> t.obj_ptr() == self.ptr_id(),
            r matches Err(e) ==> e.actual_kind() == rt@.type_of(self.ptr_id()),
    {
        T::downcast_borrow_from(rt, self)
    }

    /// Extracts a native value from the referenced object through the
    /// conversion protocol for `T`.
    pub fn extract<T: FromPyObject>(&self, rt: &Runtime) -> (r: Result<T, PyErr>)
        requires
            rt@.wf(),
            self.valid(rt@),
        ensures
            r == T::from_py_spec(rt@, self.ptr_id()),
    {
        T::from_py_object(rt, self)
    }
}

/// Handle equality is pointer identity: two handles are equal exactly when
/// they reference the same foreign object, whatever the referenced values.
pub proof fn lemma_eq_is_pointer_identity(a: PyObject, b: PyObject)
    ensures
        (a == b) <==> (a.ptr_id() == b.ptr_id()),
{
}

impl PythonObject for PyObject {
    open spec fn obj_ptr(self) -> int {
        self.ptr_id()
    }

    fn as_object(&self) -> (r: PyObject) {
        PyObject { ptr: self.ptr }
    }

    fn into_object(self) -> (r: PyObject) {
        self
    }

    fn unchecked_downcast_from(obj: PyObject) -> (r: PyObject) {
        obj
    }

    fn unchecked_downcast_borrow_from(obj: &PyObject) -> (r: PyObject) {
        PyObject { ptr: obj.ptr }
    }
}

impl PythonObjectWithCheckedDowncast for PyObject {
    /// The generic handle accepts every dynamic kind.
    open spec fn accepts(m: RuntimeModel, kind: int) -> bool {
        true
    }

    fn downcast_from(rt: &Runtime, obj: PyObject) -> (r: Result<
        PyObject,
        PythonObjectDowncastError,
    >) {
        Ok(obj)
    }

    fn downcast_borrow_from(rt: &Runtime, obj: &PyObject) -> (r: Result<
        PyObject,
        PythonObjectDowncastError,
    >) {
        Ok(PyObject { ptr: obj.ptr })
    }
}

impl ToPythonPointer for PyObject {
    fn as_ptr(&self) -> (p: usize) {
        self.ptr
    }

    fn steal_ptr(self) -> (p: usize) {
        self.ptr
    }
}

} // verus!
