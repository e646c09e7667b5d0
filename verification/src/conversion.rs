use vstd::prelude::*;

use crate::err::PyErr;
use crate::object::PyObject;
use crate::python::ToPythonPointer;
use crate::runtime::Payload;
use crate::runtime::Runtime;
use crate::runtime::RuntimeModel;

verus! {

/// The conversion protocol: pulls a native `Self` out of a foreign object.
///
/// `from_py_spec` is the per-type statement of which objects convert and to
/// what; the executable conversion must return exactly that, and the dispatch
/// point [`PyObject::extract`] propagates its error unchanged.
pub trait FromPyObject: Sized {
    /// What extraction returns for the object at `p` in runtime state `m`.
    spec fn from_py_spec(m: RuntimeModel, p: int) -> Result<Self, PyErr>;

    /// Extracts a native value from the referenced foreign object.
    fn from_py_object(rt: &Runtime, obj: &PyObject) -> (r: Result<Self, PyErr>)
        requires
            rt@.wf(),
            obj.valid(rt@),
        ensures
            r == Self::from_py_spec(rt@, obj.ptr_id()),
    ;
}

impl FromPyObject for u64 {
    /// An integer-like object yields its integer; anything else is a
    /// mismatch.
    open spec fn from_py_spec(m: RuntimeModel, p: int) -> Result<u64, PyErr> {
        match m.value_of(p) {
            Payload::Int(v) => Ok(v),
            _ => Err(PyErr::ExtractionMismatch),
        }
    }

    fn from_py_object(rt: &Runtime, obj: &PyObject) -> (r: Result<u64, PyErr>) {
        let pay: &Payload = rt.payload(obj.as_ptr());
        match pay {
            Payload::Int(v) => Ok(*v),
            _ => Err(PyErr::ExtractionMismatch),
        }
    }
}

impl FromPyObject for String {
    /// A string-like object yields its text; anything else is a mismatch.
    open spec fn from_py_spec(m: RuntimeModel, p: int) -> Result<String, PyErr> {
        match m.value_of(p) {
            Payload::Text(s) => Ok(s),
            _ => Err(PyErr::ExtractionMismatch),
        }
    }

    fn from_py_object(rt: &Runtime, obj: &PyObject) -> (r: Result<String, PyErr>) {
        let pay: &Payload = rt.payload(obj.as_ptr());
        match pay {
            Payload::Text(s) => Ok(s.clone()),
            _ => Err(PyErr::ExtractionMismatch),
        }
    }
}

} // verus!
