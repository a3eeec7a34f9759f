//! Interfaces for Merkle Key signature suites. The cryptography itself is
//! an external collaborator: the library only names the capabilities, so a
//! suite can be identified by its algorithm tags.

use vstd::prelude::*;

verus! {

/// A tag byte identifying a signature or digest algorithm within a Merkle
/// Key. The tag's meaning belongs to the crypto layer.
#[derive(Clone, Copy, Debug, PartialEq, Eq, Structural, Hash)]
pub struct MerkleTag {
    pub value: u8,
}

/// A common interface for signature algorithms supported by Merkle Key
/// signatures.
pub trait MerkleSignature {
    /// A unique tag identifying the signature algorithm.
    fn tag() -> MerkleTag;
}

/// A common interface for digest algorithms supported by Merkle Key
/// signatures.
pub trait MerkleDigest {
    /// A unique tag identifying the digest algorithm.
    fn tag() -> MerkleTag;
}

} // verus!
