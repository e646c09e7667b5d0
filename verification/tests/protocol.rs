use pyhandle::err::FormatError;
use pyhandle::err::PyErr;
use pyhandle::object::PyObject;
use pyhandle::runtime::Payload;
use pyhandle::runtime::Runtime;

// Extracting a native integer from an integer-like object yields its value.
#[test]
fn extract_integer_value() {
    let mut rt = Runtime::new();
    let t = rt.new_type(0);
    let p = rt.new_object(t, Payload::Int(42), None, None);
    let a = PyObject::from_owned_ptr(&rt, p);
    assert_eq!(a.extract::<u64>(&rt), Ok(42));
}

// Extracting a native string from a string-like object yields its text.
#[test]
fn extract_string_value() {
    let mut rt = Runtime::new();
    let t = rt.new_type(0);
    let p = rt.new_object(t, Payload::Text(String::from("hi")), None, None);
    let a = PyObject::from_owned_ptr(&rt, p);
    assert_eq!(a.extract::<String>(&rt), Ok(String::from("hi")));
}

// Extraction to the wrong native type is reported as a mismatch, for every
// payload shape.
#[test]
fn extract_wrong_type_is_mismatch() {
    let mut rt = Runtime::new();
    let t = rt.new_type(0);
    let int_obj = rt.new_object(t, Payload::Int(7), None, None);
    let opaque_obj = rt.new_object(t, Payload::Opaque, None, None);
    let a = PyObject::from_owned_ptr(&rt, int_obj);
    let b = PyObject::from_owned_ptr(&rt, opaque_obj);
    assert_eq!(a.extract::<String>(&rt), Err(PyErr::ExtractionMismatch));
    assert_eq!(b.extract::<u64>(&rt), Err(PyErr::ExtractionMismatch));
    assert_eq!(b.extract::<String>(&rt), Err(PyErr::ExtractionMismatch));
}

// The object protocol hands out a fresh owned string object whose text is
// the informal string form.
#[test]
fn str_object_returns_fresh_string_object() {
    let mut rt = Runtime::new();
    let t = rt.new_type(0);
    let p = rt.new_object(t, Payload::Int(7), Some(String::from("7")), None);
    let a = PyObject::from_owned_ptr(&rt, p);
    let s_obj = a.str_object(&mut rt).unwrap();
    assert_ne!(s_obj, a);
    assert_eq!(s_obj.get_refcnt(&rt), 1);
    assert_eq!(s_obj.extract::<String>(&rt), Ok(String::from("7")));
    s_obj.release(&mut rt);
    assert_eq!(rt.refcnt(p), 1);
}

// Display formatting yields the informal string form and cleans its
// temporary object up again.
#[test]
fn display_string_success() {
    let mut rt = Runtime::new();
    let t = rt.new_type(0);
    let p = rt.new_object(
        t,
        Payload::Int(7),
        Some(String::from("seven")),
        Some(String::from("Int(7)")),
    );
    let a = PyObject::from_owned_ptr(&rt, p);
    assert_eq!(a.to_display_string(&mut rt), Ok(String::from("seven")));
    assert_eq!(rt.refcnt(p), 1);
    let temp = p + 1;
    assert_eq!(rt.refcnt(temp), 0);
}

// Debug formatting yields the formal repr form.
#[test]
fn debug_string_success() {
    let mut rt = Runtime::new();
    let t = rt.new_type(0);
    let p = rt.new_object(
        t,
        Payload::Int(7),
        Some(String::from("seven")),
        Some(String::from("Int(7)")),
    );
    let a = PyObject::from_owned_ptr(&rt, p);
    assert_eq!(a.to_debug_string(&mut rt), Ok(String::from("Int(7)")));
}

// A handle whose foreign string conversion fails display-formats to a
// formatting error — not a crash — and leaves the object untouched.
#[test]
fn display_string_failure_is_format_error() {
    let mut rt = Runtime::new();
    let t = rt.new_type(0);
    let p = rt.new_object(t, Payload::Opaque, None, Some(String::from("x")));
    let a = PyObject::from_owned_ptr(&rt, p);
    assert_eq!(a.to_display_string(&mut rt), Err(FormatError));
    assert_eq!(rt.refcnt(p), 1);
    assert_eq!(a.to_debug_string(&mut rt), Ok(String::from("x")));
}

// A failing repr conversion is likewise a formatting error.
#[test]
fn debug_string_failure_is_format_error() {
    let mut rt = Runtime::new();
    let t = rt.new_type(0);
    let p = rt.new_object(t, Payload::Opaque, Some(String::from("x")), None);
    let a = PyObject::from_owned_ptr(&rt, p);
    assert_eq!(a.to_debug_string(&mut rt), Err(FormatError));
    assert_eq!(rt.refcnt(p), 1);
}

// The protocol error for a failing conversion is the protocol-failure
// variant.
#[test]
fn str_object_failure_is_protocol_error() {
    let mut rt = Runtime::new();
    let t = rt.new_type(0);
    let p = rt.new_object(t, Payload::Opaque, None, None);
    let a = PyObject::from_owned_ptr(&rt, p);
    assert_eq!(a.str_object(&mut rt).unwrap_err(), PyErr::ProtocolFailure);
    assert_eq!(a.repr_object(&mut rt).unwrap_err(), PyErr::ProtocolFailure);
}
