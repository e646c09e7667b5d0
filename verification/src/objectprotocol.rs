use vstd::prelude::*;

use crate::err::FormatError;
use crate::err::PyErr;
use crate::object::PyObject;
use crate::python::ToPythonPointer;
use crate::runtime::Payload;
use crate::runtime::Runtime;

verus! {

impl PyObject {
    /// Asks the object protocol for the informal string form of the
    /// referenced object: a fresh string-carrying object the caller owns, or
    /// a protocol error if the foreign conversion fails, in which case the
    /// runtime is untouched.
    pub fn str_object(&self, rt: &mut Runtime) -> (r: Result<PyObject, PyErr>)
        requires
            old(rt)@.wf(),
            self.valid(old(rt)@),
            old(rt)@.n_objs() < usize::MAX,
        ensures
            final(rt)@.wf(),
            old(rt)@.str_form_of(self.ptr_id()) is None ==> (r matches Err(e) && e
                == PyErr::ProtocolFailure && final(rt)@ == old(rt)@),
            old(rt)@.str_form_of(self.ptr_id()) matches Some(s) ==> (r matches Ok(h) && h.ptr_id()
                == old(rt)@.n_objs() + 1 && h.valid(final(rt)@) && final(rt)@ == old(
                rt,
            )@.after_new_object(
                old(rt)@.type_of(self.ptr_id()) as usize,
                Payload::Text(s),
                Some(s),
                Some(s),
            )),
    {
        let p: usize = self.as_ptr();
        let ty: usize = rt.type_id_of(p);
        let form: &Option<String> = rt.str_form(p);
        let owned: Option<String> = match form {
            None => None,
            Some(s) => Some(s.clone()),
        };
        match owned {
            None => Err(PyErr::ProtocolFailure),
            Some(text) => {
                let value: String = text.clone();
                let form_copy: String = text.clone();
                let np: usize = rt.new_object(
                    ty,
                    Payload::Text(value),
                    Some(form_copy),
                    Some(text),
                );
                Ok(PyObject::from_raw(np))
            },
        }
    }

    /// Asks the object protocol for the formal repr form of the referenced
    /// object, under the same contract as `str_object` with the repr form in
    /// place of the string form.
    pub fn repr_object(&self, rt: &mut Runtime) -> (r: Result<PyObject, PyErr>)
        requires
            old(rt)@.wf(),
            self.valid(old(rt)@),
            old(rt)@.n_objs() < usize::MAX,
        ensures
            final(rt)@.wf(),
            old(rt)@.repr_form_of(self.ptr_id()) is None ==> (r matches Err(e) && e
                == PyErr::ProtocolFailure && final(rt)@ == old(rt)@),
            old(rt)@.repr_form_of(self.ptr_id()) matches Some(s) ==> (r matches Ok(h) && h.ptr_id()
                == old(rt)@.n_objs() + 1 && h.valid(final(rt)@) && final(rt)@ == old(
                rt,
            )@.after_new_object(
                old(rt)@.type_of(self.ptr_id()) as usize,
                Payload::Text(s),
                Some(s),
                Some(s),
            )),
    {
        let p: usize = self.as_ptr();
        let ty: usize = rt.type_id_of(p);
        let form: &Option<String> = rt.repr_form(p);
        let owned: Option<String> = match form {
            None => None,
            Some(s) => Some(s.clone()),
        };
        match owned {
            None => Err(PyErr::ProtocolFailure),
            Some(text) => {
                let value: String = text.clone();
                let form_copy: String = text.clone();
                let np: usize = rt.new_object(
                    ty,
                    Payload::Text(value),
                    Some(form_copy),
                    Some(text),
                );
                Ok(PyObject::from_raw(np))
            },
        }
    }

    /// Produces the display form of the referenced object: its informal
    /// string form, extracted as a native string. Fails with a formatting
    /// error — never a crash — when the foreign string conversion fails. The
    /// temporary string object is released again; every object that already
    /// existed is left exactly as it was.
    pub fn to_display_string(&self, rt: &mut Runtime) -> (r: Result<String, FormatError>)
        requires
            old(rt)@.wf(),
            self.valid(old(rt)@),
            old(rt)@.n_objs() < usize::MAX,
        ensures
            final(rt)@.wf(),
            r matches Ok(s) ==> (old(rt)@.str_form_of(self.ptr_id()) matches Some(f) && s == f),
            r matches Err(e) ==> old(rt)@.str_form_of(self.ptr_id()) is None,
            self.valid(final(rt)@),
            final(rt)@.n_objs() <= old(rt)@.n_objs() + 1,
            forall|q: int|
                old(rt)@.is_obj(q) ==> #[trigger] final(rt)@.refcnt_of(q) == old(rt)@.refcnt_of(q),
            forall|q: int|
                old(rt)@.is_obj(q) ==> #[trigger] final(rt)@.type_of(q) == old(rt)@.type_of(q),
            forall|q: int|
                old(rt)@.is_obj(q) ==> #[trigger] final(rt)@.value_of(q) == old(rt)@.value_of(q),
            forall|q: int|
                old(rt)@.is_obj(q) ==> #[trigger] final(rt)@.str_form_of(q) == old(
                    rt,
                )@.str_form_of(q),
            forall|q: int|
                old(rt)@.is_obj(q) ==> #[trigger] final(rt)@.repr_form_of(q) == old(
                    rt,
                )@.repr_form_of(q),
    {
        let sobj: PyObject = match self.str_object(rt) {
            Err(_) => {
                return Err(FormatError);
            },
            Ok(h) => h,
        };
        let extracted: Result<String, PyErr> = sobj.extract::<String>(rt);
        let text: String = match extracted {
            Ok(t) => t,
            Err(_) => {
                sobj.release(rt);
                return Err(FormatError);
            },
        };
        sobj.release(rt);
        Ok(text)
    }

    /// Produces the debug form of the referenced object: its formal repr
    /// form, under the same contract as `to_display_string` with the repr
    /// form in place of the string form.
    pub fn to_debug_string(&self, rt: &mut Runtime) -> (r: Result<String, FormatError>)
        requires
            old(rt)@.wf(),
            self.valid(old(rt)@),
            old(rt)@.n_objs() < usize::MAX,
        ensures
            final(rt)@.wf(),
            r matches Ok(s) ==> (old(rt)@.repr_form_of(self.ptr_id()) matches Some(f) && s == f),
            r matches Err(e) ==> old(rt)@.repr_form_of(self.ptr_id()) is None,
            self.valid(final(rt)@),
            final(rt)@.n_objs() <= old(rt)@.n_objs() + 1,
            forall|q: int|
                old(rt)@.is_obj(q) ==> #[trigger] final(rt)@.refcnt_of(q) == old(rt)@.refcnt_of(q),
            forall|q: int|
                old(rt)@.is_obj(q) ==> #[trigger] final(rt)@.type_of(q) == old(rt)@.type_of(q),
            forall|q: int|
                old(rt)@.is_obj(q) ==> #[trigger] final(rt)@.value_of(q) == old(rt)@.value_of(q),
            forall|q: int|
                old(rt)@.is_obj(q) ==> #[trigger] final(rt)@.str_form_of(q) == old(
                    rt,
                )@.str_form_of(q),
            forall|q: int|
                old(rt)@.is_obj(q) ==> #[trigger] final(rt)@.repr_form_of(q) == old(
                    rt,
                )@.repr_form_of(q),
    {
        let sobj: PyObject = match self.repr_object(rt) {
            Err(_) => {
                return Err(FormatError);
            },
            Ok(h) => h,
        };
        let extracted: Result<String, PyErr> = sobj.extract::<String>(rt);
        let text: String = match extracted {
            Ok(t) => t,
            Err(_) => {
                sobj.release(rt);
                return Err(FormatError);
            },
        };
        sobj.release(rt);
        Ok(text)
    }
}

} // verus!
