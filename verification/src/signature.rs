//! A DID document signature value with a dynamic property name.

use vstd::prelude::*;

verus! {

/// A DID document signature with a dynamic property name.
#[derive(Debug, Hash, PartialEq, Eq, PartialOrd, Ord)]
pub enum SignatureValue {
    /// An empty signature value.
    Empty,
    /// A signature value with the property name `jws`.
    Jws(String),
    /// A signature value with the property name `proofValue`.
    Proof(String),
    /// A signature value with the property name `signatureValue`.
    Signature(String),
}

/// The mathematical value of a [`SignatureValue`].
pub ghost enum SignatureView {
    Empty,
    Jws(Seq<char>),
    Proof(Seq<char>),
    Signature(Seq<char>),
}

impl View for SignatureValue {
    type V = SignatureView;

    open spec fn view(&self) -> SignatureView {
        match self {
            SignatureValue::Empty => SignatureView::Empty,
            SignatureValue::Jws(inner) => SignatureView::Jws(inner@),
            SignatureValue::Proof(inner) => SignatureView::Proof(inner@),
            SignatureValue::Signature(inner) => SignatureView::Signature(inner@),
        }
    }
}

impl DeepView for SignatureValue {
    type V = SignatureView;

    open spec fn deep_view(&self) -> SignatureView {
        self@
    }
}

impl SignatureValue {
    /// The signature data, as a sequence of characters; empty for the empty
    /// signature value.
    pub open spec fn spec_data(&self) -> Seq<char> {
        match self {
            SignatureValue::Empty => Seq::empty(),
            SignatureValue::Jws(inner) => inner@,
            SignatureValue::Proof(inner) => inner@,
            SignatureValue::Signature(inner) => inner@,
        }
    }

    /// Returns `true` if the signature data is an empty value.
    pub fn is_none(&self) -> (r: bool)
        ensures
            r == (self is Empty),
    {
        matches!(self, SignatureValue::Empty)
    }

    /// Returns `true` if the signature data is a `Jws` type.
    pub fn is_jws(&self) -> (r: bool)
        ensures
            r == (self is Jws),
    {
        matches!(self, SignatureValue::Jws(_))
    }

    /// Returns `true` if the signature data is a `Proof` type.
    pub fn is_proof(&self) -> (r: bool)
        ensures
            r == (self is Proof),
    {
        matches!(self, SignatureValue::Proof(_))
    }

    /// Returns `true` if the signature data is a `Signature` type.
    pub fn is_signature(&self) -> (r: bool)
        ensures
            r == (self is Signature),
    {
        matches!(self, SignatureValue::Signature(_))
    }

    /// Returns the signature data as a string slice.
    pub fn as_str(&self) -> (r: &str)
        ensures
            r@ == self.spec_data(),
    {
        match self {
            SignatureValue::Empty => {
                proof {
                    reveal_strlit("");
                    assert(""@ =~= Seq::<char>::empty());
                }
                ""
            },
            SignatureValue::Jws(inner) => inner.as_str(),
            SignatureValue::Proof(inner) => inner.as_str(),
            SignatureValue::Signature(inner) => inner.as_str(),
        }
    }

    /// Consumes the [`SignatureValue`] and returns the data as a [`String`].
    pub fn into_string(self) -> (r: String)
        ensures
            r@ == self.spec_data(),
    {
        match self {
            SignatureValue::Empty => String::new(),
            SignatureValue::Jws(inner) => inner,
            SignatureValue::Proof(inner) => inner,
            SignatureValue::Signature(inner) => inner,
        }
    }

    /// Returns the `Jws` type signature data as a string slice.
    pub fn as_jws(&self) -> (r: Option<&str>)
        ensures
            match r {
                Some(s) => self is Jws && s@ == self.spec_data(),
                None => !(self is Jws),
            },
    {
        match self {
            SignatureValue::Jws(inner) => Some(inner.as_str()),
            _ => None,
        }
    }

    /// Returns the `Proof` type signature data as a string slice.
    pub fn as_proof(&self) -> (r: Option<&str>)
        ensures
            match r {
                Some(s) => self is Proof && s@ == self.spec_data(),
                None => !(self is Proof),
            },
    {
        match self {
            SignatureValue::Proof(inner) => Some(inner.as_str()),
            _ => None,
        }
    }

    /// Returns the `Signature` type signature data as a string slice.
    pub fn as_signature(&self) -> (r: Option<&str>)
        ensures
            match r {
                Some(s) => self is Signature && s@ == self.spec_data(),
                None => !(self is Signature),
            },
    {
        match self {
            SignatureValue::Signature(inner) => Some(inner.as_str()),
            _ => None,
        }
    }
}

impl Clone for SignatureValue {
    /// Cloning yields an equal signature value.
    fn clone(&self) -> (r: Self)
        ensures
            r == *self,
    {
        match self {
            SignatureValue::Empty => SignatureValue::Empty,
            SignatureValue::Jws(inner) => SignatureValue::Jws(inner.clone()),
            SignatureValue::Proof(inner) => SignatureValue::Proof(inner.clone()),
            SignatureValue::Signature(inner) => SignatureValue::Signature(inner.clone()),
        }
    }
}

} // verus!
