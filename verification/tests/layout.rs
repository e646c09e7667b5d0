use std::mem::size_of;

use pyhandle::object::PyObject;
use pyhandle::typeobject::PyType;

// A handle is exactly one foreign pointer wide, and so is the
// type-descriptor handle.
#[test]
fn test_sizeof() {
    assert_eq!(size_of::<PyObject>(), size_of::<usize>());
    assert_eq!(size_of::<PyType>(), size_of::<usize>());
}
