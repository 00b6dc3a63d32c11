//! Errors returned by the query and conversion functions.
//!
//! These are protocol-level failures: they are answered to the one request
//! that triggered them and never abort the server.  Source-language errors
//! (parse or analysis failures) are not represented here; they become
//! diagnostics instead.

use vstd::prelude::*;
use vstd::string::StringExecFns;

verus! {

/// Failure of a request handler or a coordinate conversion.
#[derive(Clone, Debug)]
pub enum LspError {
    /// A conversion between representations failed.
    ConversionFailed(String),
    /// A conversion between integer widths failed.
    IntegerConversionFailed,
    /// The named function is not part of the document's index.
    FunctionNotFound(String),
    /// No call expression was found at the queried position.
    CallNotFound(String),
    /// No document is open under the given identifier.
    DocumentNotFound(String),
    /// An unexpected internal failure.
    Internal(String),
}

impl LspError {
    /// Stable numeric code, used to distinguish errors at the protocol
    /// boundary.
    pub fn code(&self) -> (c: i64)
        ensures
            c == self.spec_code(),
    {
        match self {
            LspError::ConversionFailed(_) => 1,
            LspError::FunctionNotFound(_) => 2,
            LspError::CallNotFound(_) => 3,
            LspError::DocumentNotFound(_) => 4,
            LspError::IntegerConversionFailed => 5,
            LspError::Internal(_) => 100,
        }
    }

    /// The code of each variant.
    pub open spec fn spec_code(&self) -> i64 {
        match self {
            LspError::ConversionFailed(_) => 1,
            LspError::FunctionNotFound(_) => 2,
            LspError::CallNotFound(_) => 3,
            LspError::DocumentNotFound(_) => 4,
            LspError::IntegerConversionFailed => 5,
            LspError::Internal(_) => 100,
        }
    }

    /// The rendered message of each variant.
    pub open spec fn spec_message(&self) -> Seq<char> {
        match self {
            LspError::ConversionFailed(s) => "Conversion failed: "@ + s@,
            LspError::FunctionNotFound(s) => "Function not found: "@ + s@,
            LspError::CallNotFound(s) => "Call not found: "@ + s@,
            LspError::DocumentNotFound(s) => "Document not found: "@ + s@,
            LspError::IntegerConversionFailed => "Conversion failed: integer out of range"@,
            LspError::Internal(s) => "Internal error: "@ + s@,
        }
    }

    /// Human-readable message for the protocol response.
    pub fn message(&self) -> (m: String)
        ensures
            m@ == self.spec_message(),
    {
        match self {
            LspError::ConversionFailed(s) => {
                String::from_str("Conversion failed: ").concat(s.as_str())
            },
            LspError::FunctionNotFound(s) => {
                String::from_str("Function not found: ").concat(s.as_str())
            },
            LspError::CallNotFound(s) => String::from_str("Call not found: ").concat(s.as_str()),
            LspError::DocumentNotFound(s) => {
                String::from_str("Document not found: ").concat(s.as_str())
            },
            LspError::IntegerConversionFailed => {
                String::from_str("Conversion failed: integer out of range")
            },
            LspError::Internal(s) => String::from_str("Internal error: ").concat(s.as_str()),
        }
    }
}

} // verus!
