//! DID resolution and DID-URL dereferencing. [`resolve`] turns an
//! identifier string into a document (or a soft error classification);
//! [`dereference`] extracts a primary and, for a fragment, a secondary
//! resource from the resolved document, with Service Endpoint Construction
//! for the `service` query parameter.

use vstd::prelude::*;

use crate::clock::elapsed_millis;
use crate::clock::instant_now;
use crate::did::spec_parse_did;
use crate::did::spec_query_value;
use crate::did::Did;
use crate::did::DidView;
use crate::document::Document;
use crate::document::DocumentMetadata;
use crate::document::DocumentView;
use crate::document::MethodView;
use crate::document::Service;
use crate::document::ServiceView;
use crate::document::VerificationMethod;
use crate::errors::Error;
use crate::errors::ErrorKind;
use crate::strutil::str_eq;
use crate::url::spec_extend_query;
use crate::url::spec_join_url;
use crate::url::Url;
use crate::url::UrlView;

verus! {

/// Resolution input options: an implementation-defined bag, of which only
/// the accepted representation is modelled.
#[derive(Debug, PartialEq, Eq)]
pub struct InputMetadata {
    /// The representation the caller accepts, if it states one.
    pub accept: Option<String>,
}

impl InputMetadata {
    /// Empty input options.
    pub fn new() -> (r: InputMetadata)
        ensures
            r.accept is None,
    {
        InputMetadata { accept: None }
    }
}

/// A document together with its metadata, as a resolver method reads them
/// from the registry.
#[derive(Debug, PartialEq, Eq)]
pub struct MetaDocument {
    /// The document itself.
    pub data: Document,
    /// Its metadata.
    pub meta: DocumentMetadata,
}

impl Clone for MetaDocument {
    /// Cloning yields a pair whose document has the same view.
    fn clone(&self) -> (r: Self)
        ensures
            r.data@ == self.data@,
            r.meta == self.meta,
    {
        MetaDocument { data: self.data.clone(), meta: self.meta }
    }
}

/// Metadata of a resolution: elapsed duration, the resolved identifier on
/// success, and an error classification on failure.
#[derive(Debug, PartialEq, Eq)]
pub struct ResolutionMetadata {
    /// Elapsed wall-clock duration, in milliseconds.
    pub duration_ms: u64,
    /// The parsed identifier, on success.
    pub resolved: Option<Did>,
    /// The error classification, on failure.
    pub error: Option<ErrorKind>,
}

/// The outcome of a resolution.
#[derive(Debug, PartialEq, Eq)]
pub struct Resolution {
    /// The resolved document, on success.
    pub document: Option<Document>,
    /// The resolved document's metadata, on success.
    pub document_metadata: Option<DocumentMetadata>,
    /// Resolution metadata; the duration is always recorded.
    pub metadata: ResolutionMetadata,
}

/// Metadata of a dereference: elapsed duration and an error classification
/// on failure.
#[derive(Debug, PartialEq, Eq)]
pub struct DereferenceMetadata {
    /// Elapsed wall-clock duration, in milliseconds.
    pub duration_ms: u64,
    /// The error classification, on failure.
    pub error: Option<ErrorKind>,
}

/// The outcome of a dereference.
#[derive(Debug, PartialEq, Eq)]
pub struct Dereference {
    /// The dereferenced resource, on success.
    pub content: Option<Resource>,
    /// The resolved document's metadata, when resolution succeeded.
    pub content_metadata: Option<DocumentMetadata>,
    /// Dereference metadata; the duration is always recorded.
    pub metadata: DereferenceMetadata,
}

/// A primary resource: the whole document, or a constructed service
/// endpoint URL.
#[derive(Debug, PartialEq, Eq)]
pub enum PrimaryResource {
    /// The resolved document itself.
    Document(Document),
    /// An output service endpoint URL.
    Service(Url),
}

/// The mathematical value of a [`PrimaryResource`].
pub ghost enum PrimaryView {
    Document(DocumentView),
    Service(UrlView),
}

impl View for PrimaryResource {
    type V = PrimaryView;

    open spec fn view(&self) -> PrimaryView {
        match self {
            PrimaryResource::Document(d) => PrimaryView::Document(d@),
            PrimaryResource::Service(u) => PrimaryView::Service(u@),
        }
    }
}

/// A secondary resource: one element of a relationship collection.
#[derive(Debug, PartialEq, Eq)]
pub enum SecondaryResource {
    /// A verification method, from one of the six method collections.
    VerificationKey(VerificationMethod),
    /// A service declaration.
    Service(Service),
}

/// The mathematical value of a [`SecondaryResource`].
pub ghost enum SecondaryView {
    VerificationKey(MethodView),
    Service(ServiceView),
}

impl View for SecondaryResource {
    type V = SecondaryView;

    open spec fn view(&self) -> SecondaryView {
        match self {
            SecondaryResource::VerificationKey(m) => SecondaryView::VerificationKey(m@),
            SecondaryResource::Service(s) => SecondaryView::Service(s@),
        }
    }
}

/// A dereferenced resource: primary or secondary.
#[derive(Debug, PartialEq, Eq)]
pub enum Resource {
    Primary(PrimaryResource),
    Secondary(SecondaryResource),
}

/// The mathematical value of a [`Resource`].
pub ghost enum ResourceView {
    Primary(PrimaryView),
    Secondary(SecondaryView),
}

impl View for Resource {
    type V = ResourceView;

    open spec fn view(&self) -> ResourceView {
        match self {
            Resource::Primary(p) => ResourceView::Primary(p@),
            Resource::Secondary(s) => ResourceView::Secondary(s@),
        }
    }
}

/// A resolver method capability: answers whether it supports an
/// identifier's method, and reads the corresponding document from its
/// verifiable data registry. The library consumes this interface; its
/// users implement it.
pub trait ResolverMethod {
    /// Which identifiers the method supports.
    spec fn spec_supported(&self, did: DidView) -> bool;

    /// True exactly when the method supports the identifier.
    fn is_supported(&self, did: &Did) -> (r: bool)
        ensures
            r == self.spec_supported(did@),
    ;

    /// Reads the document for the identifier; may fail hard, or report
    /// absence with `None`. Nothing is promised of the outcome: it depends
    /// on the registry.
    fn read(&self, did: &Did, input: &InputMetadata) -> (r: Result<Option<MetaDocument>, Error>);
}

/// A resolver method over a fixed registry: supports one method name and
/// serves at most one entry. The simplest implementation of
/// [`ResolverMethod`], for callers that already hold the document.
#[derive(Debug)]
pub struct StaticResolver {
    /// The method name this resolver supports.
    pub method_name: String,
    /// The entry served for every supported identifier, if any.
    pub entry: Option<MetaDocument>,
    /// When set, every read fails hard.
    pub fail: bool,
}

impl ResolverMethod for StaticResolver {
    open spec fn spec_supported(&self, did: DidView) -> bool {
        did.method == self.method_name@
    }

    fn is_supported(&self, did: &Did) -> (r: bool)
        ensures
            r == self.spec_supported(did@),
    {
        str_eq(did.method(), self.method_name.as_str())
    }

    fn read(&self, _did: &Did, _input: &InputMetadata) -> (r: Result<
        Option<MetaDocument>,
        Error,
    >)
        ensures
            self.fail ==> r == Err::<Option<MetaDocument>, Error>(Error::ReadFailure),
            !self.fail && self.entry is None ==> r == Ok::<Option<MetaDocument>, Error>(None),
            (!self.fail && self.entry is Some) ==> (r matches Ok(o) && (o matches Some(doc)
                && doc.data@ == self.entry->Some_0.data@ && doc.meta == self.entry->Some_0.meta)),
    {
        if self.fail {
            return Err(Error::ReadFailure);
        }
        match &self.entry {
            Some(m) => Ok(Some(m.clone())),
            None => Ok(None),
        }
    }
}

/// A resolution being assembled, with the instant it started.
#[derive(Debug)]
pub struct ResolveContext {
    resolution: Resolution,
    start: std::time::Instant,
}

impl ResolveContext {
    /// The resolution assembled so far.
    pub closed spec fn res(&self) -> Resolution {
        self.resolution
    }

    /// An empty resolution, started now.
    pub fn new() -> (r: ResolveContext)
        ensures
            r.res().document is None,
            r.res().document_metadata is None,
            r.res().metadata.resolved is None,
            r.res().metadata.error is None,
    {
        ResolveContext {
            resolution: Resolution {
                document: None,
                document_metadata: None,
                metadata: ResolutionMetadata { duration_ms: 0, resolved: None, error: None },
            },
            start: instant_now(),
        }
    }

    /// Sets the resolved document.
    pub fn set_document(&mut self, value: Document)
        ensures
            final(self).res() == (Resolution { document: Some(value), ..old(self).res() }),
    {
        self.resolution.document = Some(value);
    }

    /// Sets the resolved document's metadata.
    pub fn set_metadata(&mut self, value: DocumentMetadata)
        ensures
            final(self).res() == (Resolution {
                document_metadata: Some(value),
                ..old(self).res()
            }),
    {
        self.resolution.document_metadata = Some(value);
    }

    /// Sets the resolved identifier.
    pub fn set_resolved(&mut self, value: Did)
        ensures
            final(self).res() == (Resolution {
                metadata: ResolutionMetadata {
                    resolved: Some(value),
                    ..old(self).res().metadata
                },
                ..old(self).res()
            }),
    {
        self.resolution.metadata.resolved = Some(value);
    }

    /// Sets the error classification.
    pub fn set_error(&mut self, value: ErrorKind)
        ensures
            final(self).res() == (Resolution {
                metadata: ResolutionMetadata { error: Some(value), ..old(self).res().metadata },
                ..old(self).res()
            }),
    {
        self.resolution.metadata.error = Some(value);
    }

    /// Finishes with the given error classification; the duration is
    /// recorded.
    pub fn finish_error(self, value: ErrorKind) -> (r: Resolution)
        ensures
            r.document == self.res().document,
            r.document_metadata == self.res().document_metadata,
            r.metadata.resolved == self.res().metadata.resolved,
            r.metadata.error == Some(value),
    {
        let mut this = self;
        this.set_error(value);
        this.finish()
    }

    /// Finishes the resolution; the duration is recorded.
    pub fn finish(self) -> (r: Resolution)
        ensures
            r.document == self.res().document,
            r.document_metadata == self.res().document_metadata,
            r.metadata.resolved == self.res().metadata.resolved,
            r.metadata.error == self.res().metadata.error,
    {
        let ResolveContext { mut resolution, start } = self;
        resolution.metadata.duration_ms = elapsed_millis(&start);
        resolution
    }
}

/// A dereference being assembled, with the instant it started.
#[derive(Debug)]
pub struct DerefContext {
    dereference: Dereference,
    start: std::time::Instant,
}

impl DerefContext {
    /// The dereference assembled so far.
    pub closed spec fn res(&self) -> Dereference {
        self.dereference
    }

    /// An empty dereference, started now.
    pub fn new() -> (r: DerefContext)
        ensures
            r.res().content is None,
            r.res().content_metadata is None,
            r.res().metadata.error is None,
    {
        DerefContext {
            dereference: Dereference {
                content: None,
                content_metadata: None,
                metadata: DereferenceMetadata { duration_ms: 0, error: None },
            },
            start: instant_now(),
        }
    }

    /// Sets the dereferenced resource.
    pub fn set_content(&mut self, value: Resource)
        ensures
            final(self).res() == (Dereference { content: Some(value), ..old(self).res() }),
    {
        self.dereference.content = Some(value);
    }

    /// Sets the resolved document's metadata.
    pub fn set_metadata(&mut self, value: DocumentMetadata)
        ensures
            final(self).res() == (Dereference {
                content_metadata: Some(value),
                ..old(self).res()
            }),
    {
        self.dereference.content_metadata = Some(value);
    }

    /// Sets the error classification.
    pub fn set_error(&mut self, value: ErrorKind)
        ensures
            final(self).res() == (Dereference {
                metadata: DereferenceMetadata { error: Some(value), ..old(self).res().metadata },
                ..old(self).res()
            }),
    {
        self.dereference.metadata.error = Some(value);
    }

    /// Finishes with the given error classification; the duration is
    /// recorded.
    pub fn finish_error(self, value: ErrorKind) -> (r: Dereference)
        ensures
            r.content == self.res().content,
            r.content_metadata == self.res().content_metadata,
            r.metadata.error == Some(value),
    {
        let mut this = self;
        this.set_error(value);
        this.finish()
    }

    /// Finishes the dereference; the duration is recorded.
    pub fn finish(self) -> (r: Dereference)
        ensures
            r.content == self.res().content,
            r.content_metadata == self.res().content_metadata,
            r.metadata.error == self.res().metadata.error,
    {
        let DerefContext { mut dereference, start } = self;
        dereference.metadata.duration_ms = elapsed_millis(&start);
        dereference
    }
}

/// Resolves a DID into a DID document by the method's read operation.
/// Syntax failures, unsupported methods and absent documents are soft
/// outcomes, classified in the result's metadata; only a failing read
/// aborts. Every path records the elapsed duration.
pub fn resolve<R: ResolverMethod>(did: &str, input: &InputMetadata, method: &R) -> (res: Result<
    Resolution,
    Error,
>)
    ensures
        spec_parse_did(did@) is None ==> (res matches Ok(r) && r.metadata.error == Some(
            ErrorKind::InvalidDID,
        )),
        (spec_parse_did(did@) matches Some(d) && !method.spec_supported(d)) ==> (res matches Ok(r)
            && r.metadata.error == Some(ErrorKind::NotSupported)),
        res is Err ==> (spec_parse_did(did@) matches Some(d) && method.spec_supported(d)),
        res matches Ok(r) ==> {
            &&& (r.metadata.error == Some(ErrorKind::InvalidDID) <==> spec_parse_did(did@) is None)
            &&& (r.metadata.error == Some(ErrorKind::NotSupported) <==> (spec_parse_did(did@)
                matches Some(d) && !method.spec_supported(d)))
            &&& (r.metadata.error == Some(ErrorKind::NotFound) ==> (spec_parse_did(did@)
                matches Some(d) && method.spec_supported(d)))
            &&& (r.metadata.error matches Some(k) ==> (k == ErrorKind::InvalidDID || k
                == ErrorKind::NotSupported || k == ErrorKind::NotFound) && r.document is None
                && r.document_metadata is None && r.metadata.resolved is None)
            &&& (r.metadata.error is None ==> ((spec_parse_did(did@) matches Some(d)
                && method.spec_supported(d)) && r.document is Some && r.document_metadata is Some
                && (r.metadata.resolved matches Some(rd) && rd@ == spec_parse_did(
                    did@,
                )->Some_0)))
        },
{
    let mut context = ResolveContext::new();
    let parsed: Did = match Did::parse(did) {
        Some(d) => d,
        None => {
            return Ok(context.finish_error(ErrorKind::InvalidDID));
        },
    };
    if !method.is_supported(&parsed) {
        return Ok(context.finish_error(ErrorKind::NotSupported));
    }
    let doc: MetaDocument = match method.read(&parsed, input) {
        Ok(Some(doc)) => doc,
        Ok(None) => {
            return Ok(context.finish_error(ErrorKind::NotFound));
        },
        Err(e) => {
            return Err(e);
        },
    };
    context.set_document(doc.data);
    context.set_metadata(doc.meta);
    context.set_resolved(parsed);
    Ok(context.finish())
}

/// The first method of the collection whose fragment equals `fragment`.
pub open spec fn spec_find_method(ms: Seq<MethodView>, fragment: Seq<char>) -> Option<MethodView>
    decreases ms.len(),
{
    if ms.len() == 0 {
        None
    } else if ms[0].id.fragment == Some(fragment) {
        Some(ms[0])
    } else {
        spec_find_method(ms.skip(1), fragment)
    }
}

/// The first service of the collection whose fragment equals `fragment`.
pub open spec fn spec_find_service(ss: Seq<ServiceView>, fragment: Seq<char>) -> Option<ServiceView>
    decreases ss.len(),
{
    if ss.len() == 0 {
        None
    } else if ss[0].id.fragment == Some(fragment) {
        Some(ss[0])
    } else {
        spec_find_service(ss.skip(1), fragment)
    }
}

/// The first match for `fragment` over the seven relationship collections,
/// searched in this fixed priority order: verification methods,
/// authentication, assertion, key agreement, capability delegation,
/// capability invocation, service; within each, in collection order.
pub open spec fn spec_find_resource(d: DocumentView, fragment: Seq<char>) -> Option<SecondaryView> {
    if spec_find_method(d.verification_method, fragment) is Some {
        Some(SecondaryView::VerificationKey(spec_find_method(d.verification_method, fragment)->Some_0))
    } else if spec_find_method(d.authentication, fragment) is Some {
        Some(SecondaryView::VerificationKey(spec_find_method(d.authentication, fragment)->Some_0))
    } else if spec_find_method(d.assertion_method, fragment) is Some {
        Some(SecondaryView::VerificationKey(spec_find_method(d.assertion_method, fragment)->Some_0))
    } else if spec_find_method(d.key_agreement, fragment) is Some {
        Some(SecondaryView::VerificationKey(spec_find_method(d.key_agreement, fragment)->Some_0))
    } else if spec_find_method(d.capability_delegation, fragment) is Some {
        Some(
            SecondaryView::VerificationKey(
                spec_find_method(d.capability_delegation, fragment)->Some_0,
            ),
        )
    } else if spec_find_method(d.capability_invocation, fragment) is Some {
        Some(
            SecondaryView::VerificationKey(
                spec_find_method(d.capability_invocation, fragment)->Some_0,
            ),
        )
    } else if spec_find_service(d.service, fragment) is Some {
        Some(SecondaryView::Service(spec_find_service(d.service, fragment)->Some_0))
    } else {
        None
    }
}

/// The first method of the collection whose fragment equals `fragment`, as
/// an owned copy.
fn find_method(v: &Vec<VerificationMethod>, fragment: &str) -> (r: Option<VerificationMethod>)
    ensures
        match r {
            Some(m) => spec_find_method(v.deep_view(), fragment@) == Some(m@),
            None => spec_find_method(v.deep_view(), fragment@) is None,
        },
{
    let ghost full = v.deep_view();
    proof {
        assert(full.skip(0) =~= full);
    }
    let mut i: usize = 0;
    while i < v.len()
        invariant
            i <= v.len(),
            full == v.deep_view(),
            spec_find_method(full, fragment@) == spec_find_method(full.skip(i as int), fragment@),
        decreases v.len() - i,
    {
        let is_match = match v[i].id.fragment() {
            Some(f) => str_eq(f, fragment),
            None => false,
        };
        proof {
            assert(full.skip(i as int)[0] == full[i as int]);
        }
        if is_match {
            proof {
                assert(full[i as int] == v[i as int]@);
            }
            return Some(v[i].clone());
        }
        i += 1;
        proof {
            assert(full.skip(i as int - 1).skip(1) =~= full.skip(i as int));
        }
    }
    proof {
        assert(full.skip(i as int) =~= Seq::<MethodView>::empty());
    }
    None
}

/// The first service of the collection whose fragment equals `fragment`,
/// as an owned copy.
fn find_service(v: &Vec<Service>, fragment: &str) -> (r: Option<Service>)
    ensures
        match r {
            Some(s) => spec_find_service(v.deep_view(), fragment@) == Some(s@),
            None => spec_find_service(v.deep_view(), fragment@) is None,
        },
{
    let ghost full = v.deep_view();
    proof {
        assert(full.skip(0) =~= full);
    }
    let mut i: usize = 0;
    while i < v.len()
        invariant
            i <= v.len(),
            full == v.deep_view(),
            spec_find_service(full, fragment@) == spec_find_service(full.skip(i as int), fragment@),
        decreases v.len() - i,
    {
        let is_match = match v[i].id.fragment() {
            Some(f) => str_eq(f, fragment),
            None => false,
        };
        proof {
            assert(full.skip(i as int)[0] == full[i as int]);
        }
        if is_match {
            proof {
                assert(full[i as int] == v[i as int]@);
            }
            return Some(v[i].clone());
        }
        i += 1;
        proof {
            assert(full.skip(i as int - 1).skip(1) =~= full.skip(i as int));
        }
    }
    proof {
        assert(full.skip(i as int) =~= Seq::<ServiceView>::empty());
    }
    None
}

/// Selects from the document the object whose sub-identifier matches the
/// requested fragment, searching the seven relationship collections in the
/// fixed order of [`spec_find_resource`]. Sub-identifiers are stored
/// absolute, so resolving one against the document's own identifier leaves
/// its fragment unchanged, and the match is on the stored fragment.
pub fn dereference_document(document: &Document, fragment: &str) -> (r: Result<
    Option<SecondaryResource>,
    Error,
>)
    ensures
        r is Ok,
        match r {
            Ok(o) => match o {
                Some(res) => spec_find_resource(document@, fragment@) == Some(res@),
                None => spec_find_resource(document@, fragment@) is None,
            },
            Err(_) => false,
        },
{
    if let Some(m) = find_method(&document.verification_method, fragment) {
        return Ok(Some(SecondaryResource::VerificationKey(m)));
    }
    if let Some(m) = find_method(&document.authentication, fragment) {
        return Ok(Some(SecondaryResource::VerificationKey(m)));
    }
    if let Some(m) = find_method(&document.assertion_method, fragment) {
        return Ok(Some(SecondaryResource::VerificationKey(m)));
    }
    if let Some(m) = find_method(&document.key_agreement, fragment) {
        return Ok(Some(SecondaryResource::VerificationKey(m)));
    }
    if let Some(m) = find_method(&document.capability_delegation, fragment) {
        return Ok(Some(SecondaryResource::VerificationKey(m)));
    }
    if let Some(m) = find_method(&document.capability_invocation, fragment) {
        return Ok(Some(SecondaryResource::VerificationKey(m)));
    }
    if let Some(s) = find_service(&document.service, fragment) {
        return Ok(Some(SecondaryResource::Service(s)));
    }
    Ok(None)
}

/// The path after a trailing empty segment, if any, is dropped.
pub open spec fn spec_pop_if_empty(p: Seq<Seq<char>>) -> Seq<Seq<char>> {
    if p.len() > 0 && p.last() == Seq::<char>::empty() {
        p.drop_last()
    } else {
        p
    }
}

/// Service Endpoint Construction: combines a DID URL and a service's
/// declared endpoint URL. The two must not both carry a query, nor both a
/// fragment, and the endpoint's scheme must be `https`; then, starting from
/// the endpoint URL stripped of query and fragment, a `relative-ref` query
/// parameter of the DID URL is resolved against it, the DID URL's path
/// segments are appended, and whichever of the two URLs carried a query,
/// and a fragment, attaches it.
pub open spec fn spec_service_endpoint_ctor(did: DidView, url: UrlView) -> Result<UrlView, Error> {
    if did.query is Some && url.query is Some {
        Err(Error::InvalidDIDQuery)
    } else if did.fragment is Some && url.fragment is Some {
        Err(Error::InvalidDIDFragment)
    } else if url.scheme != "https"@ {
        Err(Error::InvalidServiceProtocol)
    } else {
        let base = UrlView { query: None, fragment: None, ..url };
        let joined = match spec_query_value(did.query, "relative-ref"@) {
            Some(rel) => spec_join_url(base, rel),
            None => Some(base),
        };
        match joined {
            None => Err(Error::InvalidRelativeRef),
            Some(w0) => {
                let w1 = UrlView { path: spec_pop_if_empty(w0.path) + did.path, ..w0 };
                let w2 = if did.query is Some && url.query is None {
                    UrlView { query: spec_extend_query(w1.query, did.query), ..w1 }
                } else if url.query is Some && did.query is None {
                    UrlView { query: spec_extend_query(w1.query, url.query), ..w1 }
                } else {
                    w1
                };
                let w3 = if did.fragment is Some && url.fragment is None {
                    UrlView { fragment: did.fragment, ..w2 }
                } else if url.fragment is Some && did.fragment is None {
                    UrlView { fragment: url.fragment, ..w2 }
                } else {
                    w2
                };
                Ok(w3)
            },
        }
    }
}

/// Service Endpoint Construction, per [`spec_service_endpoint_ctor`].
pub fn service_endpoint_ctor(did: &Did, url: &Url) -> (r: Result<Url, Error>)
    ensures
        match r {
            Ok(u) => spec_service_endpoint_ctor(did@, url@) matches Ok(v) && u@ == v,
            Err(e) => spec_service_endpoint_ctor(did@, url@) == Err::<UrlView, Error>(e),
        },
{
    if did.has_query() && url.has_query() {
        return Err(Error::InvalidDIDQuery);
    }
    let did_has_fragment = match did.fragment() {
        Some(_) => true,
        None => false,
    };
    let url_has_fragment = match url.fragment() {
        Some(_) => true,
        None => false,
    };
    if did_has_fragment && url_has_fragment {
        return Err(Error::InvalidDIDFragment);
    }
    if !str_eq(url.scheme(), "https") {
        return Err(Error::InvalidServiceProtocol);
    }
    let mut output = url.without_query_fragment();
    if let Some(rel) = did.query_value("relative-ref") {
        output = match output.join(rel.as_str()) {
            Some(u) => u,
            None => {
                return Err(Error::InvalidRelativeRef);
            },
        };
    }
    output.append_path(did.path());
    if did.has_query() && !url.has_query() {
        output.extend_query(did.query());
    } else if url.has_query() && !did.has_query() {
        output.extend_query(url.query());
    }
    if did_has_fragment && !url_has_fragment {
        let f = match did.fragment() {
            Some(f) => f.to_owned(),
            None => String::new(),
        };
        output.set_fragment(Some(f));
    } else if url_has_fragment && !did_has_fragment {
        let f = match url.fragment() {
            Some(f) => f.to_owned(),
            None => String::new(),
        };
        output.set_fragment(Some(f));
    }
    proof {
        assert(output@ =~~= spec_service_endpoint_ctor(did@, url@)->Ok_0);
    }
    Ok(output)
}

/// The primary resource a DID URL selects from a document: the constructed
/// endpoint of the service its `service` query parameter names (absent
/// match: no resource), else the whole document when the DID URL carries no
/// path and no query. Any other combination is method-specific
/// dereferencing, which is not implemented and fails explicitly. The
/// fragment is removed from the DID URL first.
pub open spec fn spec_primary(d: DocumentView, did: DidView) -> Result<
    Option<PrimaryView>,
    Error,
> {
    let did2 = DidView { fragment: None, ..did };
    match spec_query_value(did.query, "service"@) {
        Some(target) => match spec_find_service(d.service, target) {
            Some(s) => match spec_service_endpoint_ctor(did2, s.service_endpoint) {
                Ok(u) => Ok(Some(PrimaryView::Service(u))),
                Err(e) => Err(e),
            },
            None => Ok(None),
        },
        None => {
            if did.path.len() == 0 && did.query is None {
                Ok(Some(PrimaryView::Document(d)))
            } else {
                Err(Error::UnsupportedDereference)
            }
        },
    }
}

/// Dereferences the primary resource, per [`spec_primary`].
pub fn dereference_primary(document: &Document, did: &Did) -> (r: Result<
    Option<PrimaryResource>,
    Error,
>)
    ensures
        match r {
            Ok(o) => match o {
                Some(p) => spec_primary(document@, did@) == Ok::<Option<PrimaryView>, Error>(
                    Some(p@),
                ),
                None => spec_primary(document@, did@) == Ok::<Option<PrimaryView>, Error>(
                    None::<PrimaryView>,
                ),
            },
            Err(e) => spec_primary(document@, did@) == Err::<Option<PrimaryView>, Error>(e),
        },
{
    let mut did2 = did.clone();
    did2.set_fragment(None);
    if let Some(target) = did.query_value("service") {
        match find_service(&document.service, target.as_str()) {
            Some(s) => match service_endpoint_ctor(&did2, &s.service_endpoint) {
                Ok(u) => Ok(Some(PrimaryResource::Service(u))),
                Err(e) => Err(e),
            },
            None => Ok(None),
        }
    } else if !did.has_path() && !did.has_query() {
        Ok(Some(PrimaryResource::Document(document.clone())))
    } else {
        Err(Error::UnsupportedDereference)
    }
}

/// Dereferences a DID URL into a primary or secondary resource: resolution
/// first (a soft resolution error propagates into the result), then primary
/// resource extraction, then, when the DID URL carries a fragment,
/// secondary resource extraction. Every path records the elapsed duration.
/// Exactly how a dereference outcome follows from a finished resolution: a
/// soft error classification propagates into an otherwise successful
/// result; a resolution missing its document, metadata or identifier
/// despite no error is a hard error; a consistent one is handed to
/// [`spec_dereference_extraction`].
pub open spec fn spec_dereference_outcome(
    resolution: Resolution,
    res: Result<Dereference, Error>,
) -> bool {
    match resolution.metadata.error {
        Some(e) => res matches Ok(r) && r.metadata.error == Some(e) && r.content is None
            && r.content_metadata is None,
        None => match (resolution.document, resolution.document_metadata) {
            (Some(document), Some(metadata)) => match resolution.metadata.resolved {
                Some(did) => spec_dereference_extraction(document@, did@, metadata, res),
                None => res == Err::<Dereference, Error>(Error::MissingResolutionDID),
            },
            (Some(_), None) => res == Err::<Dereference, Error>(Error::MissingResolutionMetadata),
            (None, Some(_)) => res == Err::<Dereference, Error>(Error::MissingResolutionDocument),
            (None, None) => res == Err::<Dereference, Error>(Error::MissingResolutionData),
        },
    }
}

/// Exactly how resources are extracted from a resolved document: the
/// primary resource per [`spec_primary`] (its absence classified
/// `NotFound`, its failure a hard error); with a fragment, the secondary
/// resource per [`spec_find_resource`] when the primary is the document
/// (an unmatched fragment leaves the content empty without an error), or
/// the endpoint URL with the fragment attached when it is a service
/// endpoint.
pub open spec fn spec_dereference_extraction(
    d: DocumentView,
    did: DidView,
    metadata: DocumentMetadata,
    res: Result<Dereference, Error>,
) -> bool {
    match spec_primary(d, did) {
        Err(e) => res == Err::<Dereference, Error>(e),
        Ok(None) => res matches Ok(r) && r.metadata.error == Some(ErrorKind::NotFound)
            && r.content is None && r.content_metadata == Some(metadata),
        Ok(Some(p)) => res matches Ok(r) && r.metadata.error is None && r.content_metadata == Some(
            metadata,
        ) && (match did.fragment {
            None => r.content matches Some(content) && content@ == ResourceView::Primary(p),
            Some(f) => match p {
                PrimaryView::Document(dv) => match spec_find_resource(dv, f) {
                    Some(sv) => r.content matches Some(content) && content@
                        == ResourceView::Secondary(sv),
                    None => r.content is None,
                },
                PrimaryView::Service(uv) => r.content matches Some(content) && content@
                    == ResourceView::Primary(
                    PrimaryView::Service(UrlView { fragment: Some(f), ..uv }),
                ),
            },
        }),
    }
}

/// Extracts the primary and, for a fragment, the secondary resource from a
/// finished resolution, per [`spec_dereference_outcome`]. The context is
/// the one opened when the dereference began, so the duration covers the
/// resolution as well.
pub fn dereference_resolution(context: DerefContext, resolution: Resolution) -> (res: Result<
    Dereference,
    Error,
>)
    requires
        context.res().content is None,
        context.res().content_metadata is None,
        context.res().metadata.error is None,
    ensures
        spec_dereference_outcome(resolution, res),
{
    let mut context = context;
    if let Some(error) = resolution.metadata.error {
        return Ok(context.finish_error(error));
    }
    let (document, metadata): (Document, DocumentMetadata) = match (
        resolution.document,
        resolution.document_metadata,
    ) {
        (Some(document), Some(metadata)) => (document, metadata),
        (Some(_), None) => {
            return Err(Error::MissingResolutionMetadata);
        },
        (None, Some(_)) => {
            return Err(Error::MissingResolutionDocument);
        },
        (None, None) => {
            return Err(Error::MissingResolutionData);
        },
    };
    let resolved: Did = match resolution.metadata.resolved {
        Some(d) => d,
        None => {
            return Err(Error::MissingResolutionDID);
        },
    };
    context.set_metadata(metadata);
    let primary: PrimaryResource = match dereference_primary(&document, &resolved) {
        Ok(Some(primary)) => primary,
        Ok(None) => {
            return Ok(context.finish_error(ErrorKind::NotFound));
        },
        Err(e) => {
            return Err(e);
        },
    };
    if let Some(fragment) = resolved.fragment() {
        match primary {
            PrimaryResource::Document(inner) => {
                match dereference_document(&inner, fragment) {
                    Ok(Some(resource)) => {
                        context.set_content(Resource::Secondary(resource));
                    },
                    Ok(None) => {},
                    Err(e) => {
                        return Err(e);
                    },
                }
            },
            PrimaryResource::Service(inner) => {
                let mut endpoint = inner;
                endpoint.set_fragment(Some(fragment.to_owned()));
                context.set_content(Resource::Primary(PrimaryResource::Service(endpoint)));
            },
        }
    } else {
        context.set_content(Resource::Primary(primary));
    }
    Ok(context.finish())
}

/// Dereferences a DID URL into a primary or secondary resource: resolution
/// first (a soft resolution error propagates into the result), then primary
/// resource extraction, then, when the DID URL carries a fragment,
/// secondary resource extraction. Every path records the elapsed duration.
pub fn dereference<R: ResolverMethod>(did: &str, input: &InputMetadata, method: &R) -> (res: Result<
    Dereference,
    Error,
>)
    ensures
        spec_parse_did(did@) is None ==> (res matches Ok(r) && r.metadata.error == Some(
            ErrorKind::InvalidDID,
        ) && r.content is None && r.content_metadata is None),
        (spec_parse_did(did@) matches Some(d) && !method.spec_supported(d)) ==> (res matches Ok(r)
            && r.metadata.error == Some(ErrorKind::NotSupported) && r.content is None
            && r.content_metadata is None),
        res is Err ==> (spec_parse_did(did@) matches Some(d) && method.spec_supported(d)),
        res matches Ok(r) ==> {
            &&& (r.metadata.error matches Some(k) ==> (k == ErrorKind::InvalidDID || k
                == ErrorKind::NotSupported || k == ErrorKind::NotFound) && r.content is None)
            &&& (r.metadata.error == Some(ErrorKind::InvalidDID) <==> spec_parse_did(did@) is None)
            &&& (r.metadata.error == Some(ErrorKind::NotSupported) ==> (spec_parse_did(did@)
                matches Some(d) && !method.spec_supported(d)))
        },
{
    let context = DerefContext::new();
    let resolution: Resolution = match resolve(did, input, method) {
        Ok(r) => r,
        Err(e) => {
            return Err(e);
        },
    };
    dereference_resolution(context, resolution)
}

} // verus!
