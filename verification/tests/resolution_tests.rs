use identity_did::did::Did;
use identity_did::document::Document;
use identity_did::document::DocumentMetadata;
use identity_did::document::MessageId;
use identity_did::document::Service;
use identity_did::document::VerificationMethod;
use identity_did::errors::Error;
use identity_did::errors::ErrorKind;
use identity_did::resolution::dereference;
use identity_did::resolution::dereference_resolution;
use identity_did::resolution::DerefContext;
use identity_did::resolution::Resolution;
use identity_did::resolution::ResolutionMetadata;
use identity_did::resolution::dereference_document;
use identity_did::resolution::dereference_primary;
use identity_did::resolution::resolve;
use identity_did::resolution::service_endpoint_ctor;
use identity_did::resolution::InputMetadata;
use identity_did::resolution::MetaDocument;
use identity_did::resolution::PrimaryResource;
use identity_did::resolution::Resource;
use identity_did::resolution::SecondaryResource;
use identity_did::resolution::StaticResolver;
use identity_did::signature::SignatureValue;
use identity_did::url::Url;

fn did() -> Did {
    Did::parse("did:test:1234").unwrap()
}

fn empty_document(id: &str, msg: u64) -> Document {
    Document {
        id: Did::parse(id).unwrap(),
        verification_method: vec![],
        authentication: vec![],
        assertion_method: vec![],
        key_agreement: vec![],
        capability_delegation: vec![],
        capability_invocation: vec![],
        service: vec![],
        message_id: MessageId { value: msg },
        previous_message_id: None,
        signature: SignatureValue::Jws(String::from("sig-root")),
    }
}

fn method(doc_id: &Did, fragment: &str, data: &str) -> VerificationMethod {
    VerificationMethod {
        id: doc_id.join(&format!("#{}", fragment)).unwrap(),
        key_data: String::from(data),
    }
}

fn service(doc_id: &Did, fragment: &str, endpoint: &str) -> Service {
    Service {
        id: doc_id.join(&format!("#{}", fragment)).unwrap(),
        kind: String::from("LinkedDomains"),
        service_endpoint: Url::parse(endpoint).unwrap(),
    }
}

fn metadata() -> DocumentMetadata {
    DocumentMetadata { created: Some(10), updated: Some(20), previous_message_id: None, next_message_id: None }
}

fn resolver_for(doc: Document) -> StaticResolver {
    StaticResolver {
        method_name: String::from("test"),
        entry: Some(MetaDocument { data: doc, meta: metadata() }),
        fail: false,
    }
}

#[test]
fn test_service_endpoint_valid() {
    let did = did();
    assert!(
        service_endpoint_ctor(&did, &Url::parse("https://my-service.endpoint.net").unwrap())
            .is_ok()
    );
}

#[test]
fn test_service_endpoint_invalid_query() {
    let did = did();
    assert!(matches!(
        service_endpoint_ctor(
            &did.join("?query=this").unwrap(),
            &Url::parse("https://my-service.endpoint.net?query=this").unwrap()
        ),
        Err(Error::InvalidDIDQuery)
    ));

    assert!(service_endpoint_ctor(
        &did.join("?query=this").unwrap(),
        &Url::parse("https://my-service.endpoint.net").unwrap()
    )
    .is_ok());
    assert!(service_endpoint_ctor(
        &did,
        &Url::parse("https://my-service.endpoint.net?query=this").unwrap()
    )
    .is_ok());
}

#[test]
fn test_service_endpoint_invalid_fragment() {
    let did = did();
    assert!(matches!(
        service_endpoint_ctor(
            &did.join("#fragment").unwrap(),
            &Url::parse("https://my-service.endpoint.net#fragment").unwrap()
        ),
        Err(Error::InvalidDIDFragment)
    ));

    assert!(service_endpoint_ctor(
        &did.join("#fragment").unwrap(),
        &Url::parse("https://my-service.endpoint.net").unwrap()
    )
    .is_ok());
    assert!(service_endpoint_ctor(
        &did,
        &Url::parse("https://my-service.endpoint.net#fragment").unwrap()
    )
    .is_ok());
}

#[test]
fn service_endpoint_strips_and_attaches_components() {
    let base = Url::parse("https://my-service.endpoint.net").unwrap();
    // A query carried by the DID URL alone is attached to the output.
    let out = service_endpoint_ctor(&did().join("?query=this").unwrap(), &base).unwrap();
    assert_eq!(out, Url::parse("https://my-service.endpoint.net?query=this").unwrap());
    // A fragment carried by the endpoint alone is attached to the output.
    let out = service_endpoint_ctor(
        &did(),
        &Url::parse("https://my-service.endpoint.net#fragment").unwrap(),
    )
    .unwrap();
    assert_eq!(out, Url::parse("https://my-service.endpoint.net#fragment").unwrap());
}

#[test]
fn service_endpoint_requires_https() {
    let did = did();
    assert!(matches!(
        service_endpoint_ctor(&did, &Url::parse("http://my-service.endpoint.net").unwrap()),
        Err(Error::InvalidServiceProtocol)
    ));
}

#[test]
fn service_endpoint_appends_did_path() {
    let d = Did::parse("did:test:1234/some/path").unwrap();
    let out =
        service_endpoint_ctor(&d, &Url::parse("https://my-service.endpoint.net").unwrap()).unwrap();
    assert_eq!(out, Url::parse("https://my-service.endpoint.net/some/path").unwrap());
}

#[test]
fn service_endpoint_resolves_relative_ref() {
    let d = Did::parse("did:test:1234?relative-ref=/api/v1").unwrap();
    let out =
        service_endpoint_ctor(&d, &Url::parse("https://my-service.endpoint.net").unwrap()).unwrap();
    // The relative reference replaces the path; the DID URL's query (the
    // `relative-ref` pair itself) is then attached.
    assert_eq!(
        out,
        Url::parse("https://my-service.endpoint.net/api/v1?relative-ref=/api/v1").unwrap()
    );
}

#[test]
fn service_endpoint_rejects_unresolvable_relative_ref() {
    let d = Did::parse("did:test:1234?relative-ref=x://").unwrap();
    assert!(matches!(
        service_endpoint_ctor(&d, &Url::parse("https://my-service.endpoint.net").unwrap()),
        Err(Error::InvalidRelativeRef)
    ));
}

#[test]
fn resolve_invalid_did_is_classified() {
    let method = resolver_for(empty_document("did:test:1234", 1));
    let res = resolve("not-a-valid-did", &InputMetadata::new(), &method).unwrap();
    assert_eq!(res.metadata.error, Some(ErrorKind::InvalidDID));
    assert!(res.document.is_none());
    assert!(res.document_metadata.is_none());
    assert!(res.metadata.resolved.is_none());
}

#[test]
fn resolve_unsupported_method_is_classified() {
    let mut method = resolver_for(empty_document("did:test:1234", 1));
    method.method_name = String::from("other");
    let res = resolve("did:test:1234", &InputMetadata::new(), &method).unwrap();
    assert_eq!(res.metadata.error, Some(ErrorKind::NotSupported));
    assert!(res.document.is_none());
}

#[test]
fn resolve_absent_document_is_classified() {
    let method =
        StaticResolver { method_name: String::from("test"), entry: None, fail: false };
    let res = resolve("did:test:1234", &InputMetadata::new(), &method).unwrap();
    assert_eq!(res.metadata.error, Some(ErrorKind::NotFound));
    assert!(res.document.is_none());
}

#[test]
fn resolve_success_carries_document_and_identifier() {
    let doc = empty_document("did:test:1234", 1);
    let method = resolver_for(doc.clone());
    let res = resolve("did:test:1234", &InputMetadata::new(), &method).unwrap();
    assert_eq!(res.metadata.error, None);
    assert_eq!(res.document, Some(doc));
    assert_eq!(res.document_metadata, Some(metadata()));
    assert_eq!(res.metadata.resolved, Some(Did::parse("did:test:1234").unwrap()));
}

#[test]
fn resolve_read_failure_propagates() {
    let method =
        StaticResolver { method_name: String::from("test"), entry: None, fail: true };
    assert!(matches!(
        resolve("did:test:1234", &InputMetadata::new(), &method),
        Err(Error::ReadFailure)
    ));
}

#[test]
fn dereference_whole_document() {
    let doc = empty_document("did:test:1234", 1);
    let method = resolver_for(doc.clone());
    let res = dereference("did:test:1234", &InputMetadata::new(), &method).unwrap();
    assert_eq!(res.metadata.error, None);
    assert_eq!(res.content, Some(Resource::Primary(PrimaryResource::Document(doc))));
}

#[test]
fn dereference_soft_error_propagates() {
    let method = resolver_for(empty_document("did:test:1234", 1));
    let res = dereference("not-a-valid-did", &InputMetadata::new(), &method).unwrap();
    assert_eq!(res.metadata.error, Some(ErrorKind::InvalidDID));
    assert!(res.content.is_none());
    assert!(res.content_metadata.is_none());
}

#[test]
fn dereference_resolution_rejects_inconsistent_resolutions() {
    let no_error = |document, document_metadata| Resolution {
        document,
        document_metadata,
        metadata: ResolutionMetadata { duration_ms: 0, resolved: None, error: None },
    };
    assert!(matches!(
        dereference_resolution(DerefContext::new(), no_error(None, None)),
        Err(Error::MissingResolutionData)
    ));
    assert!(matches!(
        dereference_resolution(DerefContext::new(), no_error(Some(empty_document("did:test:1234", 1)), None)),
        Err(Error::MissingResolutionMetadata)
    ));
    assert!(matches!(
        dereference_resolution(DerefContext::new(), no_error(None, Some(metadata()))),
        Err(Error::MissingResolutionDocument)
    ));
    assert!(matches!(
        dereference_resolution(
            DerefContext::new(),
            no_error(Some(empty_document("did:test:1234", 1)), Some(metadata()))
        ),
        Err(Error::MissingResolutionDID)
    ));
}

#[test]
fn dereference_service_parameter_constructs_endpoint() {
    let mut doc = empty_document("did:test:1234", 1);
    doc.service.push(service(&doc.id.clone(), "agent", "https://agent.example.com"));
    let method = resolver_for(doc);
    let res = dereference("did:test:1234?service=agent", &InputMetadata::new(), &method).unwrap();
    assert_eq!(res.metadata.error, None);
    assert_eq!(
        res.content,
        Some(Resource::Primary(PrimaryResource::Service(
            Url::parse("https://agent.example.com?service=agent").unwrap()
        )))
    );
}

#[test]
fn dereference_service_parameter_appends_fragment() {
    let mut doc = empty_document("did:test:1234", 1);
    doc.service.push(service(&doc.id.clone(), "agent", "https://agent.example.com"));
    let method = resolver_for(doc);
    let res =
        dereference("did:test:1234?service=agent#sub", &InputMetadata::new(), &method).unwrap();
    assert_eq!(
        res.content,
        Some(Resource::Primary(PrimaryResource::Service(
            Url::parse("https://agent.example.com?service=agent#sub").unwrap()
        )))
    );
}

#[test]
fn dereference_unmatched_service_parameter_is_not_found() {
    let doc = empty_document("did:test:1234", 1);
    let method = resolver_for(doc);
    let res = dereference("did:test:1234?service=absent", &InputMetadata::new(), &method).unwrap();
    assert_eq!(res.metadata.error, Some(ErrorKind::NotFound));
    assert!(res.content.is_none());
}

#[test]
fn dereference_fragment_selects_verification_method() {
    let mut doc = empty_document("did:test:1234", 1);
    let m = method(&doc.id.clone(), "key-1", "key-data-1");
    doc.verification_method.push(m.clone());
    let method = resolver_for(doc);
    let res = dereference("did:test:1234#key-1", &InputMetadata::new(), &method).unwrap();
    assert_eq!(
        res.content,
        Some(Resource::Secondary(SecondaryResource::VerificationKey(m)))
    );
}

#[test]
fn dereference_method_specific_path_fails_explicitly() {
    let doc = empty_document("did:test:1234", 1);
    let method = resolver_for(doc);
    assert!(matches!(
        dereference("did:test:1234/path", &InputMetadata::new(), &method),
        Err(Error::UnsupportedDereference)
    ));
}

#[test]
fn dereference_primary_returns_none_for_unmatched_service() {
    let doc = empty_document("did:test:1234", 1);
    let d = Did::parse("did:test:1234?service=absent").unwrap();
    assert_eq!(dereference_primary(&doc, &d).unwrap(), None);
}

#[test]
fn dereference_document_searches_collections_in_fixed_order() {
    // The same fragment lives in several collections; the earliest
    // collection in the fixed priority order wins, never a later one.
    let mut doc = empty_document("did:test:1234", 1);
    let id = doc.id.clone();
    doc.authentication.push(method(&id, "dup", "from-authentication"));
    doc.assertion_method.push(method(&id, "dup", "from-assertion"));
    doc.service.push(service(&id, "dup", "https://dup.example.com"));
    let found = dereference_document(&doc, "dup").unwrap().unwrap();
    assert_eq!(
        found,
        SecondaryResource::VerificationKey(method(&id, "dup", "from-authentication"))
    );

    // Adding the fragment to an earlier collection changes the winner.
    doc.verification_method.push(method(&id, "dup", "from-verification-method"));
    let found = dereference_document(&doc, "dup").unwrap().unwrap();
    assert_eq!(
        found,
        SecondaryResource::VerificationKey(method(&id, "dup", "from-verification-method"))
    );
}

#[test]
fn dereference_document_service_match() {
    let mut doc = empty_document("did:test:1234", 1);
    let id = doc.id.clone();
    let s = service(&id, "agent", "https://agent.example.com");
    doc.service.push(s.clone());
    assert_eq!(
        dereference_document(&doc, "agent").unwrap(),
        Some(SecondaryResource::Service(s))
    );
    assert_eq!(dereference_document(&doc, "absent").unwrap(), None);
}
