//! Error classifications. Soft errors (`ErrorKind`) are expected protocol
//! outcomes carried inside an otherwise successful result; hard errors
//! (`Error`) abort the current operation.

use vstd::prelude::*;

verus! {

/// Soft error classification surfaced via a result's metadata.
#[derive(Clone, Copy, Debug, PartialEq, Eq, Structural)]
pub enum ErrorKind {
    /// The input string does not conform to the DID syntax.
    InvalidDID,
    /// The resolver method does not support the identifier's method.
    NotSupported,
    /// The resolver method found no document for the identifier.
    NotFound,
}

/// Hard error: a contract violation or an environment failure that aborts
/// the current operation.
#[derive(Clone, Copy, Debug, PartialEq, Eq, Structural)]
pub enum Error {
    /// A resolution carried a document without document metadata.
    MissingResolutionMetadata,
    /// A resolution carried document metadata without a document.
    MissingResolutionDocument,
    /// A resolution carried neither a document nor document metadata.
    MissingResolutionData,
    /// A resolution carried no resolved identifier despite no error.
    MissingResolutionDID,
    /// The DID URL and the service endpoint URL both carry a query.
    InvalidDIDQuery,
    /// The DID URL and the service endpoint URL both carry a fragment.
    InvalidDIDFragment,
    /// The service endpoint URL's scheme is not `https`.
    InvalidServiceProtocol,
    /// A `relative-ref` query parameter could not be resolved against the
    /// service endpoint URL.
    InvalidRelativeRef,
    /// Method-specific path or query dereferencing is not implemented.
    UnsupportedDereference,
    /// A candidate successor document identifies a different subject.
    InvalidDocumentId,
    /// A previous-version pointer does not match the chain's tip.
    InvalidPreviousMessageId,
    /// A document or diff carries no signature.
    MissingSignature,
    /// A diff's patch would break a collection's uniqueness invariant.
    InvalidDiffPatch,
    /// A document is not well-formed.
    InvalidDocument,
    /// The resolver method failed to read from its registry.
    ReadFailure,
}

} // verus!
