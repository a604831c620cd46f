//! The two terminal failures of a transformation pass. Both are fatal:
//! one unresolved or malformed field aborts the whole pass and no partial
//! output is produced.

use vstd::prelude::*;
use vstd::string::StringExecFns;

verus! {

/// Why a transformation pass was aborted.
#[derive(Debug, PartialEq, Eq)]
pub enum TransformError {
    /// The definition does not have the expected field shape: its fields
    /// are positional or absent, or a field lacks a name.
    MalformedDefinition,
    /// The named field has no entry in the default-expression table.
    NoDefaultAvailable(String),
}

/// The mathematical value of a [`TransformError`].
#[verifier::ext_equal]
pub ghost enum TransformErrorV {
    MalformedDefinition,
    NoDefaultAvailable(Seq<char>),
}

impl View for TransformError {
    type V = TransformErrorV;

    open spec fn view(&self) -> TransformErrorV {
        match self {
            TransformError::MalformedDefinition => TransformErrorV::MalformedDefinition,
            TransformError::NoDefaultAvailable(n) => TransformErrorV::NoDefaultAvailable(n@),
        }
    }
}

impl TransformError {
    /// A short description of the failure, for diagnostics.
    pub fn describe(&self) -> (r: String)
        ensures
            match self@ {
                TransformErrorV::MalformedDefinition => r@
                    == "the definition is not a record type with named fields"@,
                TransformErrorV::NoDefaultAvailable(n) => r@ == "no default expression for field "@
                    + n,
            },
    {
        match self {
            TransformError::MalformedDefinition => String::from_str(
                "the definition is not a record type with named fields",
            ),
            TransformError::NoDefaultAvailable(n) => String::from_str(
                "no default expression for field ",
            ).concat(n.as_str()),
        }
    }
}

} // verus!
