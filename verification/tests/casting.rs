use pyhandle::err::PythonObjectDowncastError;
use pyhandle::object::PyObject;
use pyhandle::python::PythonObject;
use pyhandle::python::ToPythonPointer;
use pyhandle::runtime::Payload;
use pyhandle::runtime::Runtime;
use pyhandle::typedobject::TypedObject;

// Handles are equal exactly when their pointer identities are, whatever the
// referenced values.
#[test]
fn equality_is_pointer_identity() {
    let mut rt = Runtime::new();
    let t = rt.new_type(0);
    let p1 = rt.new_object(t, Payload::Int(5), None, None);
    let p2 = rt.new_object(t, Payload::Int(5), None, None);
    let a = PyObject::borrow_from_owned_ptr(&rt, p1);
    let b = PyObject::borrow_from_owned_ptr(&rt, p1);
    let c = PyObject::borrow_from_owned_ptr(&rt, p2);
    assert_eq!(a, b);
    assert_ne!(a, c);
}

// A checked downcast to the object's own kind succeeds, keeps the pointer
// identity, and changes no refcount.
#[test]
fn checked_downcast_to_correct_kind_succeeds() {
    let mut rt = Runtime::new();
    let t1 = rt.new_type(0);
    assert_eq!(t1, 1);
    let p = rt.new_object(t1, Payload::Opaque, None, None);
    let a = PyObject::from_owned_ptr(&rt, p);
    let v: TypedObject<1> = a.cast_into(&rt).unwrap();
    assert_eq!(v.as_ptr(), p);
    assert_eq!(rt.refcnt(p), 1);
    v.into_object().release(&mut rt);
}

// A checked downcast to a kind the object does not satisfy fails with an
// error naming the expected and the actual kind, and changes no refcount.
#[test]
fn checked_downcast_to_wrong_kind_fails() {
    let mut rt = Runtime::new();
    let t1 = rt.new_type(0);
    let t2 = rt.new_type(0);
    assert_eq!((t1, t2), (1, 2));
    let p = rt.new_object(t1, Payload::Opaque, None, None);
    let a = PyObject::from_owned_ptr(&rt, p);
    let r: Result<TypedObject<2>, PythonObjectDowncastError> = a.cast_as(&rt);
    let e = r.unwrap_err();
    assert_eq!(e.expected, t2);
    assert_eq!(e.actual, t1);
    assert_eq!(rt.refcnt(p), 1);
}

// A checked downcast also accepts an ancestor kind, found by walking the
// base links of the hierarchy.
#[test]
fn checked_downcast_walks_hierarchy() {
    let mut rt = Runtime::new();
    let base = rt.new_type(0);
    let derived = rt.new_type(base);
    assert_eq!((base, derived), (1, 2));
    let p = rt.new_object(derived, Payload::Opaque, None, None);
    let a = PyObject::from_owned_ptr(&rt, p);
    let as_base: TypedObject<1> = a.cast_as(&rt).unwrap();
    assert_eq!(as_base.as_ptr(), p);
    let as_derived: TypedObject<2> = a.cast_into(&rt).unwrap();
    assert_eq!(as_derived.as_ptr(), p);
    // the other direction does not hold: a base-kind object is not derived
    let q = rt.new_object(base, Payload::Opaque, None, None);
    let b = PyObject::from_owned_ptr(&rt, q);
    let r: Result<TypedObject<2>, PythonObjectDowncastError> = b.cast_into(&rt);
    assert_eq!(r.unwrap_err().actual, base);
}

// Upcasting a specific-variant handle never fails and preserves both the
// pointer identity and the refcount.
#[test]
fn upcast_preserves_identity_and_refcount() {
    let mut rt = Runtime::new();
    let t1 = rt.new_type(0);
    assert_eq!(t1, 1);
    let p = rt.new_object(t1, Payload::Opaque, None, None);
    let a = PyObject::from_owned_ptr(&rt, p);
    let v: TypedObject<1> = a.cast_into(&rt).unwrap();
    let view = v.as_object();
    assert_eq!(view.as_ptr(), p);
    assert_eq!(rt.refcnt(p), 1);
    let back = v.into_object();
    assert_eq!(back.as_ptr(), p);
    assert_eq!(rt.refcnt(p), 1);
    back.release(&mut rt);
}

// The unchecked casts transfer the pointer identity without consulting the
// runtime.
#[test]
fn unchecked_casts_preserve_identity() {
    let mut rt = Runtime::new();
    let t1 = rt.new_type(0);
    assert_eq!(t1, 1);
    let p = rt.new_object(t1, Payload::Opaque, None, None);
    let a = PyObject::from_owned_ptr(&rt, p);
    let view: TypedObject<1> = a.unchecked_cast_as();
    assert_eq!(view.as_ptr(), p);
    let v: TypedObject<1> = a.unchecked_cast_into();
    assert_eq!(v.as_ptr(), p);
    let generic = PyObject::unchecked_downcast_from(v.into_object());
    assert_eq!(generic.as_ptr(), p);
}

// Type introspection: a handle reports its object's type descriptor, and
// subtype queries walk the hierarchy.
#[test]
fn get_type_and_subtype_queries() {
    let mut rt = Runtime::new();
    let base = rt.new_type(0);
    let derived = rt.new_type(base);
    let p = rt.new_object(derived, Payload::Opaque, None, None);
    let a = PyObject::from_owned_ptr(&rt, p);
    let ty = a.get_type(&rt);
    assert_eq!(ty.id(), derived);
    let base_ty = TypedObject::<1>::type_object(&rt);
    assert_eq!(base_ty.id(), base);
    assert!(ty.is_subtype_of(&rt, &base_ty));
    assert!(!base_ty.is_subtype_of(&rt, &ty));
}

// A generic handle wrapping a foreign string object checked-downcast to a
// sequence-like variant fails, and the error identifies the actual kind as
// the string kind.
#[test]
fn downcast_string_object_to_sequence_kind_fails() {
    let mut rt = Runtime::new();
    let string_kind = rt.new_type(0);
    let sequence_kind = rt.new_type(0);
    assert_eq!((string_kind, sequence_kind), (1, 2));
    let p = rt.new_object(
        string_kind,
        Payload::Text(String::from("abc")),
        Some(String::from("abc")),
        None,
    );
    let handle = PyObject::from_owned_ptr(&rt, p);
    let r: Result<TypedObject<2>, PythonObjectDowncastError> = handle.cast_into(&rt);
    let e = r.unwrap_err();
    assert_eq!(e.expected, sequence_kind);
    assert_eq!(e.actual, string_kind);
}
