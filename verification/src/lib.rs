//! Core machinery of a decentralized-identifier (DID) subsystem: resolving a
//! DID string to its current document, dereferencing DID URLs down to a
//! specific sub-resource, and modelling a document's history as an
//! append-only authority chain with a dependent diff chain.

pub mod chain;
pub mod clock;
pub mod did;
pub mod document;
pub mod errors;
pub mod merkle;
pub mod resolution;
pub mod signature;
pub mod strutil;
pub mod url;
