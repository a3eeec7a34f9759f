//! DID documents: cryptographic material and service declarations keyed by
//! sub-identifiers, in seven ordered collections whose fragments are unique
//! within each collection; and signed diffs, each a set of per-collection
//! replacements against a specific prior document version.

use vstd::prelude::*;

use crate::did::Did;
use crate::did::DidView;
use crate::errors::Error;
use crate::signature::SignatureValue;
use crate::signature::SignatureView;
use crate::strutil::str_eq;
use crate::url::Url;
use crate::url::UrlView;

verus! {

/// The storage location of a published document or diff: an opaque content
/// pointer into the underlying registry.
#[derive(Clone, Copy, Debug, PartialEq, Eq, Structural, Hash)]
pub struct MessageId {
    pub value: u64,
}

/// A verification method: a keyed unit of cryptographic material.
#[derive(Debug, PartialEq, Eq)]
pub struct VerificationMethod {
    /// The sub-identifier; its fragment keys the method within its
    /// collection.
    pub id: Did,
    /// The key material, opaque to the chain and resolution logic.
    pub key_data: String,
}

/// The mathematical value of a [`VerificationMethod`].
#[verifier::ext_equal]
pub ghost struct MethodView {
    pub id: DidView,
    pub key_data: Seq<char>,
}

impl View for VerificationMethod {
    type V = MethodView;

    open spec fn view(&self) -> MethodView {
        MethodView { id: self.id@, key_data: self.key_data@ }
    }
}

impl DeepView for VerificationMethod {
    type V = MethodView;

    open spec fn deep_view(&self) -> MethodView {
        self@
    }
}

impl Clone for VerificationMethod {
    /// Cloning yields a method with the same view.
    fn clone(&self) -> (r: Self)
        ensures
            r@ == self@,
    {
        VerificationMethod { id: self.id.clone(), key_data: self.key_data.clone() }
    }
}

/// A service declaration: a keyed endpoint URL.
#[derive(Debug, PartialEq, Eq)]
pub struct Service {
    /// The sub-identifier; its fragment keys the service within the
    /// collection.
    pub id: Did,
    /// The service type.
    pub kind: String,
    /// The declared endpoint URL.
    pub service_endpoint: Url,
}

/// The mathematical value of a [`Service`].
#[verifier::ext_equal]
pub ghost struct ServiceView {
    pub id: DidView,
    pub kind: Seq<char>,
    pub service_endpoint: UrlView,
}

impl View for Service {
    type V = ServiceView;

    open spec fn view(&self) -> ServiceView {
        ServiceView { id: self.id@, kind: self.kind@, service_endpoint: self.service_endpoint@ }
    }
}

impl DeepView for Service {
    type V = ServiceView;

    open spec fn deep_view(&self) -> ServiceView {
        self@
    }
}

impl Clone for Service {
    /// Cloning yields a service with the same view.
    fn clone(&self) -> (r: Self)
        ensures
            r@ == self@,
    {
        Service {
            id: self.id.clone(),
            kind: self.kind.clone(),
            service_endpoint: self.service_endpoint.clone(),
        }
    }
}

/// The mathematical value of a [`Document`].
#[verifier::ext_equal]
pub ghost struct DocumentView {
    pub id: DidView,
    pub verification_method: Seq<MethodView>,
    pub authentication: Seq<MethodView>,
    pub assertion_method: Seq<MethodView>,
    pub key_agreement: Seq<MethodView>,
    pub capability_delegation: Seq<MethodView>,
    pub capability_invocation: Seq<MethodView>,
    pub service: Seq<ServiceView>,
    pub message_id: MessageId,
    pub previous_message_id: Option<MessageId>,
    pub signature: SignatureView,
}

/// Every method carries a fragment, and no two methods of the collection
/// carry the same one.
pub open spec fn methods_unique(ms: Seq<MethodView>) -> bool {
    &&& forall|i: int| 0 <= i < ms.len() ==> (#[trigger] ms[i]).id.fragment is Some
    &&& forall|i: int, j: int|
        0 <= i < j < ms.len() ==> (#[trigger] ms[i]).id.fragment != (#[trigger] ms[j]).id.fragment
}

/// Every service carries a fragment, and no two services of the collection
/// carry the same one.
pub open spec fn services_unique(ss: Seq<ServiceView>) -> bool {
    &&& forall|i: int| 0 <= i < ss.len() ==> (#[trigger] ss[i]).id.fragment is Some
    &&& forall|i: int, j: int|
        0 <= i < j < ss.len() ==> (#[trigger] ss[i]).id.fragment != (#[trigger] ss[j]).id.fragment
}

/// A well-formed document: each of the seven collections enforces fragment
/// uniqueness.
pub open spec fn doc_view_wf(d: DocumentView) -> bool {
    &&& methods_unique(d.verification_method)
    &&& methods_unique(d.authentication)
    &&& methods_unique(d.assertion_method)
    &&& methods_unique(d.key_agreement)
    &&& methods_unique(d.capability_delegation)
    &&& methods_unique(d.capability_invocation)
    &&& services_unique(d.service)
}

/// A DID document. The resolution engines receive one per call; the chains
/// hold the authoritative and folded copies.
#[derive(Debug, PartialEq, Eq)]
pub struct Document {
    /// The document's own identifier.
    pub id: Did,
    /// Verification methods.
    pub verification_method: Vec<VerificationMethod>,
    /// Authentication relationships.
    pub authentication: Vec<VerificationMethod>,
    /// Assertion relationships.
    pub assertion_method: Vec<VerificationMethod>,
    /// Key agreement relationships.
    pub key_agreement: Vec<VerificationMethod>,
    /// Capability delegation relationships.
    pub capability_delegation: Vec<VerificationMethod>,
    /// Capability invocation relationships.
    pub capability_invocation: Vec<VerificationMethod>,
    /// Service declarations.
    pub service: Vec<Service>,
    /// Where this document version is stored.
    pub message_id: MessageId,
    /// Where the version this one supersedes is stored, if any.
    pub previous_message_id: Option<MessageId>,
    /// The document's signature; verification of the signature bytes is the
    /// crypto layer's concern, the chains only demand its presence.
    pub signature: SignatureValue,
}

impl View for Document {
    type V = DocumentView;

    open spec fn view(&self) -> DocumentView {
        DocumentView {
            id: self.id@,
            verification_method: self.verification_method.deep_view(),
            authentication: self.authentication.deep_view(),
            assertion_method: self.assertion_method.deep_view(),
            key_agreement: self.key_agreement.deep_view(),
            capability_delegation: self.capability_delegation.deep_view(),
            capability_invocation: self.capability_invocation.deep_view(),
            service: self.service.deep_view(),
            message_id: self.message_id,
            previous_message_id: self.previous_message_id,
            signature: self.signature@,
        }
    }
}

impl DeepView for Document {
    type V = DocumentView;

    open spec fn deep_view(&self) -> DocumentView {
        self@
    }
}

/// A copy of a vector of verification methods, with the same view.
pub(crate) fn clone_methods(v: &Vec<VerificationMethod>) -> (r: Vec<VerificationMethod>)
    ensures
        r.deep_view() == v.deep_view(),
{
    let mut r: Vec<VerificationMethod> = Vec::new();
    let mut i: usize = 0;
    while i < v.len()
        invariant
            i <= v.len(),
            r.deep_view() =~= v.deep_view().subrange(0, i as int),
        decreases v.len() - i,
    {
        let ghost old_dv = r.deep_view();
        r.push(v[i].clone());
        proof {
            assert(r.deep_view() =~= old_dv.push(v.deep_view()[i as int]));
            assert(v.deep_view().subrange(0, i as int + 1) =~= v.deep_view().subrange(
                0,
                i as int,
            ).push(v.deep_view()[i as int]));
        }
        i += 1;
    }
    proof {
        assert(r.deep_view() =~= v.deep_view());
    }
    r
}

/// A copy of a vector of services, with the same view.
pub(crate) fn clone_services(v: &Vec<Service>) -> (r: Vec<Service>)
    ensures
        r.deep_view() == v.deep_view(),
{
    let mut r: Vec<Service> = Vec::new();
    let mut i: usize = 0;
    while i < v.len()
        invariant
            i <= v.len(),
            r.deep_view() =~= v.deep_view().subrange(0, i as int),
        decreases v.len() - i,
    {
        let ghost old_dv = r.deep_view();
        r.push(v[i].clone());
        proof {
            assert(r.deep_view() =~= old_dv.push(v.deep_view()[i as int]));
            assert(v.deep_view().subrange(0, i as int + 1) =~= v.deep_view().subrange(
                0,
                i as int,
            ).push(v.deep_view()[i as int]));
        }
        i += 1;
    }
    proof {
        assert(r.deep_view() =~= v.deep_view());
    }
    r
}

/// True exactly when the collection's fragments are all present and
/// pairwise distinct.
pub fn check_methods_unique(v: &Vec<VerificationMethod>) -> (r: bool)
    ensures
        r == methods_unique(v.deep_view()),
{
    let ghost dv = v.deep_view();
    let mut i: usize = 0;
    while i < v.len()
        invariant
            i <= v.len(),
            dv == v.deep_view(),
            forall|k: int| 0 <= k < i ==> (#[trigger] dv[k]).id.fragment is Some,
            forall|k: int, l: int|
                0 <= k < l < i ==> (#[trigger] dv[k]).id.fragment != (#[trigger] dv[l]).id.fragment,
        decreases v.len() - i,
    {
        let fi = match v[i].id.fragment() {
            Some(f) => f,
            None => {
                return false;
            },
        };
        let mut j: usize = 0;
        while j < i
            invariant
                j <= i < v.len(),
                dv == v.deep_view(),
                dv[i as int].id.fragment == Some(fi@),
                forall|k: int| 0 <= k < i ==> (#[trigger] dv[k]).id.fragment is Some,
                forall|k: int| 0 <= k < j ==> (#[trigger] dv[k]).id.fragment != dv[i as int].id.fragment,
            decreases i - j,
        {
            match v[j].id.fragment() {
                Some(fj) => {
                    if str_eq(fi, fj) {
                        return false;
                    }
                },
                None => {
                    proof {
                        assert(dv[j as int].id.fragment is Some);
                        assert(false);
                    }
                    return false;
                },
            }
            j += 1;
        }
        i += 1;
    }
    true
}

/// True exactly when the collection's fragments are all present and
/// pairwise distinct.
pub fn check_services_unique(v: &Vec<Service>) -> (r: bool)
    ensures
        r == services_unique(v.deep_view()),
{
    let ghost dv = v.deep_view();
    let mut i: usize = 0;
    while i < v.len()
        invariant
            i <= v.len(),
            dv == v.deep_view(),
            forall|k: int| 0 <= k < i ==> (#[trigger] dv[k]).id.fragment is Some,
            forall|k: int, l: int|
                0 <= k < l < i ==> (#[trigger] dv[k]).id.fragment != (#[trigger] dv[l]).id.fragment,
        decreases v.len() - i,
    {
        let fi = match v[i].id.fragment() {
            Some(f) => f,
            None => {
                return false;
            },
        };
        let mut j: usize = 0;
        while j < i
            invariant
                j <= i < v.len(),
                dv == v.deep_view(),
                dv[i as int].id.fragment == Some(fi@),
                forall|k: int| 0 <= k < i ==> (#[trigger] dv[k]).id.fragment is Some,
                forall|k: int| 0 <= k < j ==> (#[trigger] dv[k]).id.fragment != dv[i as int].id.fragment,
            decreases i - j,
        {
            match v[j].id.fragment() {
                Some(fj) => {
                    if str_eq(fi, fj) {
                        return false;
                    }
                },
                None => {
                    proof {
                        assert(dv[j as int].id.fragment is Some);
                        assert(false);
                    }
                    return false;
                },
            }
            j += 1;
        }
        i += 1;
    }
    true
}

impl Document {
    /// A well-formed document; see [`doc_view_wf`].
    pub open spec fn wf(&self) -> bool {
        doc_view_wf(self@)
    }

    /// True exactly when the document is well-formed.
    pub fn check_wf(&self) -> (r: bool)
        ensures
            r == self.wf(),
    {
        check_methods_unique(&self.verification_method) && check_methods_unique(
            &self.authentication,
        ) && check_methods_unique(&self.assertion_method) && check_methods_unique(
            &self.key_agreement,
        ) && check_methods_unique(&self.capability_delegation) && check_methods_unique(
            &self.capability_invocation,
        ) && check_services_unique(&self.service)
    }

    /// Applies a diff's patch, replacing the collections the patch names.
    /// Fails, leaving the document unchanged, exactly when the patch is not
    /// well-formed.
    pub fn merge(&mut self, diff: &DocumentDiff) -> (r: Result<(), Error>)
        ensures
            match r {
                Ok(()) => patch_wf(diff@.patch) && final(self)@ == apply_patch(
                    old(self)@,
                    diff@.patch,
                ),
                Err(e) => e == Error::InvalidDiffPatch && !patch_wf(diff@.patch) && final(self)@
                    == old(self)@,
            },
    {
        if !check_patch_wf(&diff.patch) {
            return Err(Error::InvalidDiffPatch);
        }
        if let Some(v) = &diff.patch.verification_method {
            self.verification_method = clone_methods(v);
        }
        if let Some(v) = &diff.patch.authentication {
            self.authentication = clone_methods(v);
        }
        if let Some(v) = &diff.patch.assertion_method {
            self.assertion_method = clone_methods(v);
        }
        if let Some(v) = &diff.patch.key_agreement {
            self.key_agreement = clone_methods(v);
        }
        if let Some(v) = &diff.patch.capability_delegation {
            self.capability_delegation = clone_methods(v);
        }
        if let Some(v) = &diff.patch.capability_invocation {
            self.capability_invocation = clone_methods(v);
        }
        if let Some(v) = &diff.patch.service {
            self.service = clone_services(v);
        }
        proof {
            assert(self@ =~~= apply_patch(old(self)@, diff@.patch));
        }
        Ok(())
    }
}

impl Clone for Document {
    /// Cloning yields a document with the same view.
    fn clone(&self) -> (r: Self)
        ensures
            r@ == self@,
            r.wf() == self.wf(),
    {
        let r = Document {
            id: self.id.clone(),
            verification_method: clone_methods(&self.verification_method),
            authentication: clone_methods(&self.authentication),
            assertion_method: clone_methods(&self.assertion_method),
            key_agreement: clone_methods(&self.key_agreement),
            capability_delegation: clone_methods(&self.capability_delegation),
            capability_invocation: clone_methods(&self.capability_invocation),
            service: clone_services(&self.service),
            message_id: self.message_id,
            previous_message_id: self.previous_message_id,
            signature: self.signature.clone(),
        };
        proof {
            assert(r@ =~~= self@);
        }
        r
    }
}

/// A diff's patch: for each collection, either a replacement or `None` to
/// leave the collection as it stands.
#[derive(Debug, PartialEq, Eq)]
pub struct DiffPatch {
    pub verification_method: Option<Vec<VerificationMethod>>,
    pub authentication: Option<Vec<VerificationMethod>>,
    pub assertion_method: Option<Vec<VerificationMethod>>,
    pub key_agreement: Option<Vec<VerificationMethod>>,
    pub capability_delegation: Option<Vec<VerificationMethod>>,
    pub capability_invocation: Option<Vec<VerificationMethod>>,
    pub service: Option<Vec<Service>>,
}

/// The mathematical value of a [`DiffPatch`].
#[verifier::ext_equal]
pub ghost struct PatchView {
    pub verification_method: Option<Seq<MethodView>>,
    pub authentication: Option<Seq<MethodView>>,
    pub assertion_method: Option<Seq<MethodView>>,
    pub key_agreement: Option<Seq<MethodView>>,
    pub capability_delegation: Option<Seq<MethodView>>,
    pub capability_invocation: Option<Seq<MethodView>>,
    pub service: Option<Seq<ServiceView>>,
}

impl View for DiffPatch {
    type V = PatchView;

    open spec fn view(&self) -> PatchView {
        PatchView {
            verification_method: self.verification_method.deep_view(),
            authentication: self.authentication.deep_view(),
            assertion_method: self.assertion_method.deep_view(),
            key_agreement: self.key_agreement.deep_view(),
            capability_delegation: self.capability_delegation.deep_view(),
            capability_invocation: self.capability_invocation.deep_view(),
            service: self.service.deep_view(),
        }
    }
}

/// A well-formed patch: every replacement it names enforces fragment
/// uniqueness.
pub open spec fn patch_wf(p: PatchView) -> bool {
    &&& (p.verification_method matches Some(ms) ==> methods_unique(ms))
    &&& (p.authentication matches Some(ms) ==> methods_unique(ms))
    &&& (p.assertion_method matches Some(ms) ==> methods_unique(ms))
    &&& (p.key_agreement matches Some(ms) ==> methods_unique(ms))
    &&& (p.capability_delegation matches Some(ms) ==> methods_unique(ms))
    &&& (p.capability_invocation matches Some(ms) ==> methods_unique(ms))
    &&& (p.service matches Some(ss) ==> services_unique(ss))
}

/// The document after a patch: each collection the patch names is replaced,
/// the rest stand.
pub open spec fn apply_patch(d: DocumentView, p: PatchView) -> DocumentView {
    DocumentView {
        verification_method: match p.verification_method {
            Some(ms) => ms,
            None => d.verification_method,
        },
        authentication: match p.authentication {
            Some(ms) => ms,
            None => d.authentication,
        },
        assertion_method: match p.assertion_method {
            Some(ms) => ms,
            None => d.assertion_method,
        },
        key_agreement: match p.key_agreement {
            Some(ms) => ms,
            None => d.key_agreement,
        },
        capability_delegation: match p.capability_delegation {
            Some(ms) => ms,
            None => d.capability_delegation,
        },
        capability_invocation: match p.capability_invocation {
            Some(ms) => ms,
            None => d.capability_invocation,
        },
        service: match p.service {
            Some(ss) => ss,
            None => d.service,
        },
        ..d
    }
}

/// Applying a well-formed patch to a well-formed document yields a
/// well-formed document.
pub proof fn lemma_apply_patch_wf(d: DocumentView, p: PatchView)
    requires
        doc_view_wf(d),
        patch_wf(p),
    ensures
        doc_view_wf(apply_patch(d, p)),
{
}

/// True exactly when the patch is well-formed.
pub fn check_patch_wf(p: &DiffPatch) -> (r: bool)
    ensures
        r == patch_wf(p@),
{
    let ok1 = match &p.verification_method {
        Some(v) => check_methods_unique(v),
        None => true,
    };
    let ok2 = match &p.authentication {
        Some(v) => check_methods_unique(v),
        None => true,
    };
    let ok3 = match &p.assertion_method {
        Some(v) => check_methods_unique(v),
        None => true,
    };
    let ok4 = match &p.key_agreement {
        Some(v) => check_methods_unique(v),
        None => true,
    };
    let ok5 = match &p.capability_delegation {
        Some(v) => check_methods_unique(v),
        None => true,
    };
    let ok6 = match &p.capability_invocation {
        Some(v) => check_methods_unique(v),
        None => true,
    };
    let ok7 = match &p.service {
        Some(v) => check_services_unique(v),
        None => true,
    };
    ok1 && ok2 && ok3 && ok4 && ok5 && ok6 && ok7
}

/// A copy of an optional method collection, with the same view.
fn clone_opt_methods(v: &Option<Vec<VerificationMethod>>) -> (r: Option<Vec<VerificationMethod>>)
    ensures
        r.deep_view() == v.deep_view(),
{
    match v {
        Some(ms) => Some(clone_methods(ms)),
        None => None,
    }
}

impl Clone for DiffPatch {
    /// Cloning yields a patch with the same view.
    fn clone(&self) -> (r: Self)
        ensures
            r@ == self@,
    {
        let r = DiffPatch {
            verification_method: clone_opt_methods(&self.verification_method),
            authentication: clone_opt_methods(&self.authentication),
            assertion_method: clone_opt_methods(&self.assertion_method),
            key_agreement: clone_opt_methods(&self.key_agreement),
            capability_delegation: clone_opt_methods(&self.capability_delegation),
            capability_invocation: clone_opt_methods(&self.capability_invocation),
            service: match &self.service {
                Some(ss) => Some(clone_services(ss)),
                None => None,
            },
        };
        proof {
            assert(r@ =~~= self@);
        }
        r
    }
}

/// A signed delta against a specific prior document version. Created by an
/// update workflow, validated and appended exactly once to a diff chain,
/// never mutated afterward.
#[derive(Debug, PartialEq, Eq)]
pub struct DocumentDiff {
    /// Where the document version this diff modifies is stored.
    pub previous_message_id: MessageId,
    /// The patch itself.
    pub patch: DiffPatch,
    /// The signature over the patch; verification of the signature bytes is
    /// the crypto layer's concern, the chains only demand its presence.
    pub signature: SignatureValue,
    /// Where this diff is stored.
    pub message_id: MessageId,
}

/// The mathematical value of a [`DocumentDiff`].
#[verifier::ext_equal]
pub ghost struct DiffView {
    pub previous_message_id: MessageId,
    pub patch: PatchView,
    pub signature: SignatureView,
    pub message_id: MessageId,
}

impl View for DocumentDiff {
    type V = DiffView;

    open spec fn view(&self) -> DiffView {
        DiffView {
            previous_message_id: self.previous_message_id,
            patch: self.patch@,
            signature: self.signature@,
            message_id: self.message_id,
        }
    }
}

impl DeepView for DocumentDiff {
    type V = DiffView;

    open spec fn deep_view(&self) -> DiffView {
        self@
    }
}

impl Clone for DocumentDiff {
    /// Cloning yields a diff with the same view.
    fn clone(&self) -> (r: Self)
        ensures
            r@ == self@,
    {
        let r = DocumentDiff {
            previous_message_id: self.previous_message_id,
            patch: self.patch.clone(),
            signature: self.signature.clone(),
            message_id: self.message_id,
        };
        proof {
            assert(r@ =~~= self@);
        }
        r
    }
}

/// Document metadata carried beside a resolved document: retrieval
/// timestamps and update pointers.
#[derive(Debug, Clone, Copy, PartialEq, Eq, Structural)]
pub struct DocumentMetadata {
    /// When the document was created, in seconds since the epoch.
    pub created: Option<u64>,
    /// When the document was last updated, in seconds since the epoch.
    pub updated: Option<u64>,
    /// Where the previous update is stored, if any.
    pub previous_message_id: Option<MessageId>,
    /// Where the next update is stored, if any.
    pub next_message_id: Option<MessageId>,
}

} // verus!
