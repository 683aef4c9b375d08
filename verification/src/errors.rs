//! The error taxonomy.  Every failure is fatal for the pipeline assembly that
//! raised it — there is no retry and no partial success — and each error
//! carries the offending name or type so a caller can report it.

use vstd::prelude::*;
use crate::glsl::GLSLTYPE;

verus! {

/// An error raised while a stage's parameter list is turned into binding
/// requirements.
#[derive(Debug, PartialEq, Eq)]
pub enum DeclarationError {
    /// A parameter carries more than one storage-class qualifier, so the
    /// resource usage it asks for would be ambiguous.
    InvalidQualifiers { name: String },
    /// A parameter uses a reserved builtin name but not its mandated type.
    BuiltinTypeMismatch { name: String, gtype: GLSLTYPE },
    /// A stage declares more distinct requirement names than a name set can
    /// hold; `name` is a declared name that did not fit.
    TooManyNames { name: String },
}

/// A pipe-compatibility failure between two stages: the named upstream output
/// is not among the downstream stage's declared inputs.
#[derive(Debug, PartialEq, Eq)]
pub enum CompositionError {
    UnconsumedOutput { output: String },
}

/// An error raised by a bind call against the declared parameter table.
#[derive(Debug, PartialEq, Eq)]
pub enum BindingError {
    /// The named parameter is not declared anywhere in the table, so nothing
    /// can accept the value.
    UnknownTarget { name: String },
    /// The slot is declared with a type that does not accept the bound
    /// value's shape; `gtype` is the declared type of the slot.
    TypeMismatch { name: String, gtype: GLSLTYPE },
    /// The value's raw element count cannot form whole elements of the
    /// declared shape.
    MalformedCount { elements: usize },
}

/// An attempt to execute a pipeline whose binding context still holds
/// unresolved requirements; `missing` lists them.
#[derive(Debug, PartialEq, Eq)]
pub struct ReadinessError {
    pub missing: Vec<String>,
}

} // verus!
