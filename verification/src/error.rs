//! The driver's error taxonomy, and the rule that classifies a transport
//! failure into it.

use vstd::prelude::*;

verus! {

/// The classification a transport reports with a failed bus operation.
///
/// It mirrors the error classes a one-wire bus implementation can
/// distinguish; anything the driver has no special handling for is
/// `Other`.
#[derive(Clone, Copy, Debug, PartialEq, Eq, Structural)]
pub enum ErrorKind {
    /// The bus reported a device whose family code did not match.
    FamilyCodeMismatch,
    /// The bus detected a checksum mismatch on transferred data.
    CrcMismatch,
    /// Any other bus failure.
    Other,
}

/// Everything that can go wrong in a driver operation.
#[derive(Clone, Copy, Debug, PartialEq, Eq, Structural)]
pub enum Error {
    /// A bus failure the driver has no more specific classification for.
    OneWireError,
    /// The device's address does not carry this sensor family's code.
    FamilyCodeMismatch,
    /// The data read back failed its integrity check: either the transport
    /// reported a checksum mismatch, or the scratchpad's configuration byte
    /// was not a valid resolution encoding.
    CrcMismatch,
    /// A polled operation did not complete within its iteration ceiling.
    Timeout,
    /// A failure outside the other classes.
    Other,
}

impl Error {
    /// The driver error a transport failure of the given kind is classified
    /// as. Never `Timeout` or `Other`: those arise only inside the driver
    /// itself.
    pub open spec fn spec_from_kind(kind: ErrorKind) -> Error {
        match kind {
            ErrorKind::FamilyCodeMismatch => Error::FamilyCodeMismatch,
            ErrorKind::CrcMismatch => Error::CrcMismatch,
            ErrorKind::Other => Error::OneWireError,
        }
    }

    /// True of the errors a transport failure can be classified as.
    pub open spec fn is_transport_error(self) -> bool {
        self == Error::OneWireError || self == Error::FamilyCodeMismatch || self
            == Error::CrcMismatch
    }
}

impl From<ErrorKind> for Error {
    /// Classifies a transport failure into the driver's taxonomy.
    fn from(kind: ErrorKind) -> (r: Error)
        ensures
            r == Error::spec_from_kind(kind),
    {
        match kind {
            ErrorKind::FamilyCodeMismatch => Error::FamilyCodeMismatch,
            ErrorKind::CrcMismatch => Error::CrcMismatch,
            ErrorKind::Other => Error::OneWireError,
        }
    }
}

impl vstd::std_specs::convert::FromSpecImpl<ErrorKind> for Error {
    open spec fn obeys_from_spec() -> bool {
        true
    }

    open spec fn from_spec(kind: ErrorKind) -> Error {
        Error::spec_from_kind(kind)
    }
}

/// Law: a transport failure is never classified as `Timeout` or `Other`.
pub proof fn lemma_transport_error_classification(kind: ErrorKind)
    ensures
        Error::spec_from_kind(kind).is_transport_error(),
{
}

} // verus!
