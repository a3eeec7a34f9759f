//! Document chains. An [`AuthChain`] is the append-only history of full
//! authoritative document replacements; a [`DiffChain`] layers signed
//! incremental updates on the authority chain's tip; a [`DocumentChain`]
//! composes the two and keeps a folded view of the current document.

use vstd::prelude::*;

use crate::did::did_eq;
use crate::did::Did;
use crate::document::apply_patch;
use crate::document::doc_view_wf;
use crate::document::patch_wf;
use crate::document::DiffView;
use crate::document::Document;
use crate::document::DocumentDiff;
use crate::document::DocumentView;
use crate::document::MessageId;
use crate::errors::Error;
use crate::signature::SignatureView;

verus! {

/// The mathematical value of an [`AuthChain`]: the superseded documents in
/// order, and the current one.
#[verifier::ext_equal]
pub ghost struct AuthChainView {
    pub history: Seq<DocumentView>,
    pub current: DocumentView,
}

/// A well-formed authority chain: every document it holds is well-formed
/// and signed.
pub open spec fn auth_view_wf(a: AuthChainView) -> bool {
    &&& doc_view_wf(a.current)
    &&& !(a.current.signature is Empty)
    &&& forall|i: int|
        0 <= i < a.history.len() ==> doc_view_wf(#[trigger] a.history[i]) && !(a.history[i].signature
            is Empty)
}

/// A legitimate successor of the current document: well-formed, signed,
/// identifying the same subject, and pointing at the current version.
pub open spec fn spec_valid_successor(cur: DocumentView, new_doc: DocumentView) -> bool {
    &&& doc_view_wf(new_doc)
    &&& !(new_doc.signature is Empty)
    &&& new_doc.id == cur.id
    &&& new_doc.previous_message_id == Some(cur.message_id)
}

/// Ordered history of full documents; the root of trust for one identifier.
#[derive(Debug)]
pub struct AuthChain {
    history: Vec<Document>,
    current: Document,
}

impl View for AuthChain {
    type V = AuthChainView;

    closed spec fn view(&self) -> AuthChainView {
        AuthChainView { history: self.history.deep_view(), current: self.current@ }
    }
}

impl AuthChain {
    /// A well-formed chain; see [`auth_view_wf`].
    pub open spec fn wf(&self) -> bool {
        auth_view_wf(self@)
    }

    /// Starts a chain from a root document, which must be well-formed and
    /// signed.
    pub fn new(document: Document) -> (r: Result<AuthChain, Error>)
        ensures
            match r {
                Ok(c) => doc_view_wf(document@) && !(document@.signature is Empty) && c@
                    == (AuthChainView { history: Seq::empty(), current: document@ }) && c.wf(),
                Err(e) => {
                    &&& (e == Error::InvalidDocument || e == Error::MissingSignature)
                    &&& (e == Error::InvalidDocument <==> !doc_view_wf(document@))
                    &&& (e == Error::MissingSignature <==> doc_view_wf(document@) && document@.signature
                        is Empty)
                },
            },
    {
        if !document.check_wf() {
            return Err(Error::InvalidDocument);
        }
        if document.signature.is_none() {
            return Err(Error::MissingSignature);
        }
        let c = AuthChain { history: Vec::new(), current: document };
        proof {
            assert(c@.history =~= Seq::<DocumentView>::empty());
        }
        Ok(c)
    }

    /// The current (tip) document.
    pub fn current(&self) -> (r: &Document)
        ensures
            r@ == self@.current,
    {
        &self.current
    }

    /// The storage location of the current document.
    pub fn current_message_id(&self) -> (r: MessageId)
        ensures
            r == self@.current.message_id,
    {
        self.current.message_id
    }

    /// Appends a document that must be a legitimate successor of the
    /// current one; on failure the chain is unchanged.
    pub fn try_push(&mut self, document: Document) -> (r: Result<(), Error>)
        requires
            old(self).wf(),
        ensures
            match r {
                Ok(()) => spec_valid_successor(old(self)@.current, document@) && final(self)@
                    == (AuthChainView {
                    history: old(self)@.history.push(old(self)@.current),
                    current: document@,
                }),
                Err(e) => {
                    &&& !spec_valid_successor(old(self)@.current, document@)
                    &&& final(self)@ == old(self)@
                    &&& (e == Error::InvalidDocument || e == Error::MissingSignature || e
                        == Error::InvalidDocumentId || e == Error::InvalidPreviousMessageId)
                    &&& (e == Error::InvalidDocument <==> !doc_view_wf(document@))
                    &&& (e == Error::MissingSignature <==> doc_view_wf(document@)
                        && document@.signature is Empty)
                    &&& (e == Error::InvalidDocumentId <==> doc_view_wf(document@) && !(
                    document@.signature is Empty) && document@.id != old(self)@.current.id)
                    &&& (e == Error::InvalidPreviousMessageId <==> doc_view_wf(document@) && !(
                    document@.signature is Empty) && document@.id == old(self)@.current.id
                        && document@.previous_message_id != Some(old(self)@.current.message_id))
                },
            },
            final(self).wf(),
    {
        if !document.check_wf() {
            return Err(Error::InvalidDocument);
        }
        if document.signature.is_none() {
            return Err(Error::MissingSignature);
        }
        if !did_eq(&document.id, &self.current.id) {
            return Err(Error::InvalidDocumentId);
        }
        let linked = match document.previous_message_id {
            Some(p) => p == self.current.message_id,
            None => false,
        };
        if !linked {
            return Err(Error::InvalidPreviousMessageId);
        }
        let ghost old_history = self.history.deep_view();
        let prev = self.current.clone();
        self.history.push(prev);
        self.current = document;
        proof {
            assert(self.history.deep_view() =~= old_history.push(old(self)@.current));
        }
        Ok(())
    }
}

/// The storage location of the latest update: the last diff's, or the
/// authority tip's when the diff chain is empty.
pub open spec fn spec_tip_message_id(a: AuthChainView, ds: Seq<DiffView>) -> MessageId {
    if ds.len() > 0 {
        ds.last().message_id
    } else {
        a.current.message_id
    }
}

/// Ordered history of signed incremental updates, layered on the authority
/// chain's tip.
#[derive(Debug)]
pub struct DiffChain {
    diffs: Vec<DocumentDiff>,
}

impl View for DiffChain {
    type V = Seq<DiffView>;

    closed spec fn view(&self) -> Seq<DiffView> {
        self.diffs.deep_view()
    }
}

impl DiffChain {
    /// An empty diff chain.
    pub fn new() -> (r: DiffChain)
        ensures
            r@ =~= Seq::<DiffView>::empty(),
    {
        let r = DiffChain { diffs: Vec::new() };
        proof {
            assert(r@ =~= Seq::<DiffView>::empty());
        }
        r
    }

    /// Whether the chain holds no diff.
    pub fn is_empty(&self) -> (r: bool)
        ensures
            r == (self@.len() == 0),
    {
        self.diffs.len() == 0
    }

    /// The number of diffs.
    pub fn len(&self) -> (r: usize)
        ensures
            r == self@.len(),
    {
        self.diffs.len()
    }

    /// The diff at the given position.
    pub fn get(&self, i: usize) -> (r: &DocumentDiff)
        requires
            i < self@.len(),
        ensures
            r@ == self@[i as int],
    {
        &self.diffs[i]
    }

    /// Drops every diff; used when the authority chain advances.
    pub fn clear(&mut self)
        ensures
            final(self)@ =~= Seq::<DiffView>::empty(),
    {
        self.diffs = Vec::new();
        proof {
            assert(self@ =~= Seq::<DiffView>::empty());
        }
    }

    /// The storage location of the last diff, if any.
    pub fn current_message_id(&self) -> (r: Option<MessageId>)
        ensures
            r == (if self@.len() > 0 {
                Some(self@.last().message_id)
            } else {
                None::<MessageId>
            }),
    {
        if self.diffs.len() > 0 {
            Some(self.diffs[self.diffs.len() - 1].message_id)
        } else {
            None
        }
    }

    /// Pure validation: the diff's prior-version pointer must match the
    /// current tip (the last diff's location, or the authority tip's when
    /// this chain is empty), and the diff must be signed. Verification of
    /// the signature bytes is the crypto layer's concern.
    pub fn check_validity(&self, auth: &AuthChain, diff: &DocumentDiff) -> (r: Result<(), Error>)
        ensures
            match r {
                Ok(()) => diff@.previous_message_id == spec_tip_message_id(auth@, self@) && !(
                diff@.signature is Empty),
                Err(e) => {
                    &&& (e == Error::InvalidPreviousMessageId || e == Error::MissingSignature)
                    &&& (e == Error::InvalidPreviousMessageId <==> diff@.previous_message_id
                        != spec_tip_message_id(auth@, self@))
                    &&& (e == Error::MissingSignature <==> diff@.previous_message_id
                        == spec_tip_message_id(auth@, self@) && diff@.signature is Empty)
                },
            },
    {
        let expected = match self.current_message_id() {
            Some(m) => m,
            None => auth.current_message_id(),
        };
        if !(diff.previous_message_id == expected) {
            return Err(Error::InvalidPreviousMessageId);
        }
        if diff.signature.is_none() {
            return Err(Error::MissingSignature);
        }
        Ok(())
    }

    /// Appends without revalidating: the escape hatch for callers that have
    /// just run [`DiffChain::check_validity`] successfully, which is
    /// exactly what the precondition demands.
    pub fn push_unchecked(&mut self, auth: &AuthChain, diff: DocumentDiff)
        requires
            diff@.previous_message_id == spec_tip_message_id(auth@, old(self)@),
            !(diff@.signature is Empty),
        ensures
            final(self)@ == old(self)@.push(diff@),
    {
        let ghost old_dv = self@;
        self.diffs.push(diff);
        proof {
            assert(self@ =~= old_dv.push(diff@));
        }
    }
}

/// The document after folding a sequence of diffs, in order, onto an
/// authority document.
pub open spec fn spec_fold(d: DocumentView, ds: Seq<DiffView>) -> DocumentView
    decreases ds.len(),
{
    if ds.len() == 0 {
        d
    } else {
        apply_patch(spec_fold(d, ds.drop_last()), ds.last().patch)
    }
}

/// Folding an empty diff chain onto an authority document returns exactly
/// that document.
pub proof fn lemma_fold_empty(d: DocumentView, ds: Seq<DiffView>)
    requires
        ds.len() == 0,
    ensures
        spec_fold(d, ds) == d,
{
}

/// Every diff points at the version before it: the authority tip for the
/// first, the previous diff for the rest.
pub open spec fn diffs_linked(a: AuthChainView, ds: Seq<DiffView>) -> bool {
    forall|i: int|
        0 <= i < ds.len() ==> (#[trigger] ds[i]).previous_message_id == (if i == 0 {
            a.current.message_id
        } else {
            ds[i - 1].message_id
        })
}

/// Every diff carries a signature.
pub open spec fn diffs_signed(ds: Seq<DiffView>) -> bool {
    forall|i: int| 0 <= i < ds.len() ==> !((#[trigger] ds[i]).signature is Empty)
}

/// Every diff's patch is well-formed.
pub open spec fn diffs_patches_wf(ds: Seq<DiffView>) -> bool {
    forall|i: int| 0 <= i < ds.len() ==> patch_wf((#[trigger] ds[i]).patch)
}

/// The mathematical value of a [`DocumentChain`].
#[verifier::ext_equal]
pub ghost struct DocumentChainView {
    pub diff_chain: Seq<DiffView>,
    pub auth_chain: AuthChainView,
    pub document: Option<DocumentView>,
}

/// The document chain's invariant: the authority chain is well-formed, the
/// diffs are linked, signed and applicable, and the cached folded document
/// is present exactly when diffs exist and then equals the authority tip
/// with every diff applied in order.
pub open spec fn chain_wf(c: DocumentChainView) -> bool {
    &&& auth_view_wf(c.auth_chain)
    &&& diffs_linked(c.auth_chain, c.diff_chain)
    &&& diffs_signed(c.diff_chain)
    &&& diffs_patches_wf(c.diff_chain)
    &&& (c.document is Some <==> c.diff_chain.len() > 0)
    &&& (c.document matches Some(d) ==> d == spec_fold(c.auth_chain.current, c.diff_chain))
}

/// The current document: the cached folded one when present, else the
/// authority tip.
pub open spec fn spec_current(c: DocumentChainView) -> DocumentView {
    match c.document {
        Some(d) => d,
        None => c.auth_chain.current,
    }
}

/// Under the chain invariant, the current document always equals the
/// authority tip with every diff applied in order.
pub proof fn lemma_current_is_fold(c: DocumentChainView)
    requires
        chain_wf(c),
    ensures
        spec_current(c) == spec_fold(c.auth_chain.current, c.diff_chain),
{
}

/// One authority chain and one diff chain, composed into one addressable
/// entity with a cached folded view.
#[derive(Debug)]
pub struct DocumentChain {
    diff_chain: DiffChain,
    auth_chain: AuthChain,
    document: Option<Document>,
}

impl View for DocumentChain {
    type V = DocumentChainView;

    closed spec fn view(&self) -> DocumentChainView {
        DocumentChainView {
            diff_chain: self.diff_chain@,
            auth_chain: self.auth_chain@,
            document: match self.document {
                Some(ref d) => Some(d@),
                None => None,
            },
        }
    }
}

impl DocumentChain {
    /// The chain invariant; see [`chain_wf`].
    pub open spec fn wf(&self) -> bool {
        chain_wf(self@)
    }

    /// The storage location of the latest update among the two chains.
    pub(crate) fn __diff_message_id(auth: &AuthChain, diff: &DiffChain) -> (r: MessageId)
        ensures
            r == spec_tip_message_id(auth@, diff@),
    {
        match diff.current_message_id() {
            Some(m) => m,
            None => auth.current_message_id(),
        }
    }

    /// The authority tip with every diff applied in order; fails, with the
    /// patch error, exactly when some diff's patch is not well-formed.
    pub(crate) fn __fold(auth_chain: &AuthChain, diff_chain: &DiffChain) -> (r: Result<
        Document,
        Error,
    >)
        ensures
            match r {
                Ok(d) => diffs_patches_wf(diff_chain@) && d@ == spec_fold(
                    auth_chain@.current,
                    diff_chain@,
                ),
                Err(e) => e == Error::InvalidDiffPatch && !diffs_patches_wf(diff_chain@),
            },
    {
        let mut this: Document = auth_chain.current().clone();
        let n = diff_chain.len();
        let mut i: usize = 0;
        while i < n
            invariant
                i <= n,
                n == diff_chain@.len(),
                this@ == spec_fold(auth_chain@.current, diff_chain@.take(i as int)),
                forall|k: int| 0 <= k < i ==> patch_wf((#[trigger] diff_chain@[k]).patch),
            decreases n - i,
        {
            let d = diff_chain.get(i);
            match this.merge(d) {
                Ok(()) => {},
                Err(e) => {
                    return Err(e);
                },
            }
            proof {
                assert(diff_chain@.take(i as int + 1).drop_last() =~= diff_chain@.take(i as int));
                assert(diff_chain@.take(i as int + 1).last() == diff_chain@[i as int]);
            }
            i += 1;
        }
        proof {
            assert(diff_chain@.take(n as int) =~= diff_chain@);
        }
        Ok(this)
    }

    /// Creates a new chain from the given authority chain, with no diffs.
    pub fn new(auth_chain: AuthChain) -> (r: DocumentChain)
        requires
            auth_chain.wf(),
        ensures
            r@ == (DocumentChainView {
                diff_chain: Seq::empty(),
                auth_chain: auth_chain@,
                document: None,
            }),
            r.wf(),
    {
        let r = DocumentChain { diff_chain: DiffChain::new(), auth_chain, document: None };
        proof {
            assert(r@ =~~= (DocumentChainView {
                diff_chain: Seq::empty(),
                auth_chain: r.auth_chain@,
                document: None,
            }));
        }
        r
    }

    /// Creates a new chain from the given authority chain and diff chain,
    /// validating that the diffs are linked, signed and applicable; the
    /// folded document is cached exactly when diffs exist.
    #[verifier::rlimit(100)]
    pub fn with_diff_chain(auth_chain: AuthChain, diff_chain: DiffChain) -> (r: Result<
        DocumentChain,
        Error,
    >)
        requires
            auth_chain.wf(),
        ensures
            match r {
                Ok(c) => {
                    &&& diffs_linked(auth_chain@, diff_chain@)
                    &&& diffs_signed(diff_chain@)
                    &&& diffs_patches_wf(diff_chain@)
                    &&& c@.auth_chain == auth_chain@
                    &&& c@.diff_chain == diff_chain@
                    &&& c@.document == (if diff_chain@.len() > 0 {
                        Some(spec_fold(auth_chain@.current, diff_chain@))
                    } else {
                        None::<DocumentView>
                    })
                    &&& c.wf()
                },
                Err(e) => {
                    &&& !(diffs_linked(auth_chain@, diff_chain@) && diffs_signed(diff_chain@)
                        && diffs_patches_wf(diff_chain@))
                    &&& (e == Error::InvalidPreviousMessageId ==> !diffs_linked(
                        auth_chain@,
                        diff_chain@,
                    ))
                    &&& (e == Error::MissingSignature ==> !diffs_signed(diff_chain@))
                    &&& (e == Error::InvalidDiffPatch ==> !diffs_patches_wf(diff_chain@))
                },
            },
    {
        let n = diff_chain.len();
        let mut i: usize = 0;
        while i < n
            invariant
                i <= n,
                n == diff_chain@.len(),
                forall|k: int|
                    0 <= k < i ==> (#[trigger] diff_chain@[k]).previous_message_id == (if k == 0 {
                        auth_chain@.current.message_id
                    } else {
                        diff_chain@[k - 1].message_id
                    }),
                forall|k: int| 0 <= k < i ==> !((#[trigger] diff_chain@[k]).signature is Empty),
            decreases n - i,
        {
            let d = diff_chain.get(i);
            let expected = if i == 0 {
                auth_chain.current_message_id()
            } else {
                diff_chain.get(i - 1).message_id
            };
            if !(d.previous_message_id == expected) {
                return Err(Error::InvalidPreviousMessageId);
            }
            if d.signature.is_none() {
                return Err(Error::MissingSignature);
            }
            i += 1;
        }
        let document: Option<Document> = if diff_chain.is_empty() {
            None
        } else {
            match Self::__fold(&auth_chain, &diff_chain) {
                Ok(d) => Some(d),
                Err(e) => {
                    return Err(e);
                },
            }
        };
        let c = DocumentChain { diff_chain, auth_chain, document };
        proof {
            if c@.diff_chain.len() == 0 {
                assert(diffs_patches_wf(c@.diff_chain));
            }
        }
        Ok(c)
    }

    /// The identifier the chain manages: the authority tip's.
    pub fn id(&self) -> (r: &Did)
        ensures
            r@ == self@.auth_chain.current.id,
    {
        &self.auth_chain.current.id
    }

    /// The authority chain.
    pub fn auth(&self) -> (r: &AuthChain)
        ensures
            r@ == self@.auth_chain,
    {
        &self.auth_chain
    }

    /// The diff chain.
    pub fn diff(&self) -> (r: &DiffChain)
        ensures
            r@ == self@.diff_chain,
    {
        &self.diff_chain
    }

    /// Consumes the chain and returns the authority tip with every diff
    /// applied in order, independent of the cache.
    pub fn fold(self) -> (r: Result<Document, Error>)
        requires
            self.wf(),
        ensures
            r is Ok,
            r matches Ok(d) ==> d@ == spec_fold(self@.auth_chain.current, self@.diff_chain),
    {
        match Self::__fold(&self.auth_chain, &self.diff_chain) {
            Ok(d) => Ok(d),
            Err(e) => {
                proof {
                    assert(false);
                }
                Err(e)
            },
        }
    }

    /// The latest document: the cached folded one when present, else the
    /// authority tip.
    pub fn current(&self) -> (r: &Document)
        requires
            self.wf(),
        ensures
            r@ == spec_current(self@),
            r@ == spec_fold(self@.auth_chain.current, self@.diff_chain),
    {
        proof {
            lemma_current_is_fold(self@);
        }
        match &self.document {
            Some(d) => d,
            None => self.auth_chain.current(),
        }
    }

    /// The storage location of the latest authority document.
    pub fn auth_message_id(&self) -> (r: MessageId)
        ensures
            r == self@.auth_chain.current.message_id,
    {
        self.auth_chain.current_message_id()
    }

    /// The storage location of the latest diff or authority document.
    pub fn diff_message_id(&self) -> (r: MessageId)
        ensures
            r == spec_tip_message_id(self@.auth_chain, self@.diff_chain),
    {
        Self::__diff_message_id(&self.auth_chain, &self.diff_chain)
    }

    /// Adds a new authority document to the chain. On success the diff
    /// chain is cleared and the folded cache reset: a new authority
    /// document supersedes any diffs built against the old one. On failure
    /// the chain is unchanged.
    pub fn try_push_auth(&mut self, document: Document) -> (r: Result<(), Error>)
        requires
            old(self).wf(),
        ensures
            final(self).wf(),
            match r {
                Ok(()) => {
                    &&& spec_valid_successor(old(self)@.auth_chain.current, document@)
                    &&& final(self)@.auth_chain == (AuthChainView {
                        history: old(self)@.auth_chain.history.push(old(self)@.auth_chain.current),
                        current: document@,
                    })
                    &&& final(self)@.diff_chain.len() == 0
                    &&& final(self)@.document is None
                    &&& spec_current(final(self)@) == document@
                },
                Err(e) => {
                    &&& !spec_valid_successor(old(self)@.auth_chain.current, document@)
                    &&& final(self)@ == old(self)@
                },
            },
    {
        match self.auth_chain.try_push(document) {
            Ok(()) => {},
            Err(e) => {
                proof {
                    assert(self@ =~~= old(self)@);
                }
                return Err(e);
            },
        }
        self.diff_chain.clear();
        self.document = None;
        Ok(())
    }

    /// Adds a new diff to the chain: validates it against the current tip,
    /// applies it to the current document, caches the result, and appends
    /// the diff. On failure the chain is unchanged, the cache included.
    #[verifier::rlimit(100)]
    pub fn try_push_diff(&mut self, diff: DocumentDiff) -> (r: Result<(), Error>)
        requires
            old(self).wf(),
        ensures
            final(self).wf(),
            match r {
                Ok(()) => {
                    &&& diff@.previous_message_id == spec_tip_message_id(
                        old(self)@.auth_chain,
                        old(self)@.diff_chain,
                    )
                    &&& !(diff@.signature is Empty)
                    &&& patch_wf(diff@.patch)
                    &&& final(self)@.auth_chain == old(self)@.auth_chain
                    &&& final(self)@.diff_chain == old(self)@.diff_chain.push(diff@)
                    &&& spec_current(final(self)@) == apply_patch(
                        spec_current(old(self)@),
                        diff@.patch,
                    )
                },
                Err(e) => {
                    &&& final(self)@ == old(self)@
                    &&& (e == Error::InvalidPreviousMessageId || e == Error::MissingSignature || e
                        == Error::InvalidDiffPatch)
                    &&& (e == Error::InvalidPreviousMessageId <==> diff@.previous_message_id
                        != spec_tip_message_id(old(self)@.auth_chain, old(self)@.diff_chain))
                    &&& (e == Error::MissingSignature <==> diff@.previous_message_id
                        == spec_tip_message_id(old(self)@.auth_chain, old(self)@.diff_chain)
                        && diff@.signature is Empty)
                    &&& (e == Error::InvalidDiffPatch <==> diff@.previous_message_id
                        == spec_tip_message_id(old(self)@.auth_chain, old(self)@.diff_chain) && !(
                    diff@.signature is Empty) && !patch_wf(diff@.patch))
                },
            },
    {
        match self.diff_chain.check_validity(&self.auth_chain, &diff) {
            Ok(()) => {},
            Err(e) => {
                return Err(e);
            },
        }
        if !crate::document::check_patch_wf(&diff.patch) {
            return Err(Error::InvalidDiffPatch);
        }
        let mut document: Document = match &self.document {
            Some(d) => d.clone(),
            None => self.auth_chain.current().clone(),
        };
        proof {
            lemma_current_is_fold(old(self)@);
            assert(document@ == spec_fold(old(self)@.auth_chain.current, old(self)@.diff_chain));
        }
        match document.merge(&diff) {
            Ok(()) => {},
            Err(e) => {
                proof {
                    assert(false);
                }
                return Err(e);
            },
        }
        self.document = Some(document);
        self.diff_chain.push_unchecked(&self.auth_chain, diff);
        proof {
            let a = old(self)@.auth_chain;
            let ds = old(self)@.diff_chain;
            let nds = self@.diff_chain;
            assert(nds.drop_last() =~= ds);
            assert(nds.last() == diff@);
            assert(spec_fold(a.current, nds) == apply_patch(spec_fold(a.current, ds), diff@.patch));
            assert forall|i: int|
                0 <= i < nds.len() implies (#[trigger] nds[i]).previous_message_id == (if i == 0 {
                a.current.message_id
            } else {
                nds[i - 1].message_id
            }) by {
                if i < ds.len() {
                    assert(ds[i].previous_message_id == (if i == 0 {
                        a.current.message_id
                    } else {
                        ds[i - 1].message_id
                    }));
                }
            };
            assert(diffs_signed(nds)) by {
                assert(forall|i: int| 0 <= i < ds.len() ==> nds[i] == ds[i]);
            };
            assert(diffs_patches_wf(nds)) by {
                assert(forall|i: int| 0 <= i < ds.len() ==> nds[i] == ds[i]);
            };
        }
        Ok(())
    }
}

} // verus!
