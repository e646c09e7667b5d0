use vstd::prelude::*;

verus! {

/// Error returned by a checked downcast whose dynamic-kind test failed.
///
/// It carries the kind id the cast required and the kind id the object
/// actually has, so a caller can report the mismatch.
#[derive(PartialEq, Eq, Structural, Debug, Clone, Copy)]
pub struct PythonObjectDowncastError {
    /// The kind id the cast required.
    pub expected: usize,
    /// The kind id the object actually has.
    pub actual: usize,
}

impl PythonObjectDowncastError {
    /// The kind id the cast required.
    pub open spec fn expected_kind(self) -> int {
        self.expected as int
    }

    /// The kind id the object actually has.
    pub open spec fn actual_kind(self) -> int {
        self.actual as int
    }
}

/// Error produced by the foreign runtime's delegated protocols.
#[derive(PartialEq, Eq, Structural, Debug, Clone, Copy)]
pub enum PyErr {
    /// The foreign value does not convert to the requested native type.
    ExtractionMismatch,
    /// A delegated protocol call failed inside the foreign runtime.
    ProtocolFailure,
}

/// Error returned when producing a display or debug string for a handle
/// fails, because the foreign object's own string conversion failed.
#[derive(PartialEq, Eq, Structural, Debug, Clone, Copy)]
pub struct FormatError;

} // verus!
