use identity_did::chain::AuthChain;
use identity_did::chain::DiffChain;
use identity_did::chain::DocumentChain;
use identity_did::did::Did;
use identity_did::document::DiffPatch;
use identity_did::document::Document;
use identity_did::document::DocumentDiff;
use identity_did::document::MessageId;
use identity_did::document::VerificationMethod;
use identity_did::errors::Error;
use identity_did::signature::SignatureValue;

fn empty_document(id: &str, msg: u64) -> Document {
    Document {
        id: Did::parse(id).unwrap(),
        verification_method: vec![],
        authentication: vec![],
        assertion_method: vec![],
        key_agreement: vec![],
        capability_delegation: vec![],
        capability_invocation: vec![],
        service: vec![],
        message_id: MessageId { value: msg },
        previous_message_id: None,
        signature: SignatureValue::Jws(String::from("sig-root")),
    }
}

fn key(doc_id: &Did, fragment: &str, data: &str) -> VerificationMethod {
    VerificationMethod {
        id: doc_id.join(&format!("#{}", fragment)).unwrap(),
        key_data: String::from(data),
    }
}

fn empty_patch() -> DiffPatch {
    DiffPatch {
        verification_method: None,
        authentication: None,
        assertion_method: None,
        key_agreement: None,
        capability_delegation: None,
        capability_invocation: None,
        service: None,
    }
}

fn diff_with_authentication(prev: u64, msg: u64, methods: Vec<VerificationMethod>) -> DocumentDiff {
    DocumentDiff {
        previous_message_id: MessageId { value: prev },
        patch: DiffPatch { authentication: Some(methods), ..empty_patch() },
        signature: SignatureValue::Proof(String::from("sig-diff")),
        message_id: MessageId { value: msg },
    }
}

#[test]
fn fold_of_empty_diff_chain_is_auth_tip() {
    let root = empty_document("did:test:1234", 1);
    let auth = AuthChain::new(root.clone()).unwrap();
    let chain = DocumentChain::new(auth);
    assert!(chain.diff().is_empty());
    assert_eq!(chain.current(), &root);
    assert_eq!(chain.fold().unwrap(), root);
}

#[test]
fn push_diff_applies_patch_exactly_once() {
    let root = empty_document("did:test:1234", 1);
    let m = key(&root.id.clone(), "key-1", "key-data-1");
    let auth = AuthChain::new(root.clone()).unwrap();
    let mut chain = DocumentChain::new(auth);
    chain.try_push_diff(diff_with_authentication(1, 2, vec![m.clone()])).unwrap();

    let mut expected = root;
    expected.authentication = vec![m];
    assert_eq!(chain.current(), &expected);
    assert_eq!(chain.diff().len(), 1);
    assert_eq!(chain.fold().unwrap(), expected);
}

#[test]
fn push_second_diff_chains_on_the_first() {
    let root = empty_document("did:test:1234", 1);
    let id = root.id.clone();
    let auth = AuthChain::new(root.clone()).unwrap();
    let mut chain = DocumentChain::new(auth);
    chain
        .try_push_diff(diff_with_authentication(1, 2, vec![key(&id, "key-1", "one")]))
        .unwrap();
    // The second diff must point at the first, not at the authority tip.
    assert!(matches!(
        chain.try_push_diff(diff_with_authentication(1, 3, vec![key(&id, "key-2", "two")])),
        Err(Error::InvalidPreviousMessageId)
    ));
    chain
        .try_push_diff(diff_with_authentication(2, 3, vec![key(&id, "key-2", "two")]))
        .unwrap();

    let mut expected = root;
    expected.authentication = vec![key(&id, "key-2", "two")];
    assert_eq!(chain.current(), &expected);
    assert_eq!(chain.diff().len(), 2);
    assert_eq!(chain.diff_message_id(), MessageId { value: 3 });
    assert_eq!(chain.auth_message_id(), MessageId { value: 1 });
}

#[test]
fn push_auth_clears_diffs_and_cache() {
    let root = empty_document("did:test:1234", 1);
    let id = root.id.clone();
    let auth = AuthChain::new(root).unwrap();
    let mut chain = DocumentChain::new(auth);
    chain
        .try_push_diff(diff_with_authentication(1, 2, vec![key(&id, "key-1", "one")]))
        .unwrap();

    let mut successor = empty_document("did:test:1234", 3);
    successor.previous_message_id = Some(MessageId { value: 1 });
    chain.try_push_auth(successor.clone()).unwrap();

    assert!(chain.diff().is_empty());
    assert_eq!(chain.current(), &successor);
    assert_eq!(chain.auth().current(), &successor);
    assert_eq!(chain.fold().unwrap(), successor);
}

#[test]
fn push_auth_rejects_a_different_subject() {
    let root = empty_document("did:test:1234", 1);
    let auth = AuthChain::new(root.clone()).unwrap();
    let mut chain = DocumentChain::new(auth);
    let mut successor = empty_document("did:test:9999", 2);
    successor.previous_message_id = Some(MessageId { value: 1 });
    assert!(matches!(chain.try_push_auth(successor), Err(Error::InvalidDocumentId)));
    assert_eq!(chain.current(), &root);
}

#[test]
fn push_auth_rejects_a_broken_pointer() {
    let root = empty_document("did:test:1234", 1);
    let auth = AuthChain::new(root).unwrap();
    let mut chain = DocumentChain::new(auth);
    let mut successor = empty_document("did:test:1234", 2);
    successor.previous_message_id = Some(MessageId { value: 77 });
    assert!(matches!(chain.try_push_auth(successor), Err(Error::InvalidPreviousMessageId)));
}

#[test]
fn push_auth_rejects_an_unsigned_document() {
    let root = empty_document("did:test:1234", 1);
    let auth = AuthChain::new(root).unwrap();
    let mut chain = DocumentChain::new(auth);
    let mut successor = empty_document("did:test:1234", 2);
    successor.previous_message_id = Some(MessageId { value: 1 });
    successor.signature = SignatureValue::Empty;
    assert!(matches!(chain.try_push_auth(successor), Err(Error::MissingSignature)));
}

#[test]
fn auth_chain_rejects_a_malformed_root() {
    let mut root = empty_document("did:test:1234", 1);
    let id = root.id.clone();
    root.verification_method.push(key(&id, "dup", "one"));
    root.verification_method.push(key(&id, "dup", "two"));
    assert!(matches!(AuthChain::new(root), Err(Error::InvalidDocument)));
}

#[test]
fn push_diff_rejects_a_broken_pointer() {
    let root = empty_document("did:test:1234", 1);
    let id = root.id.clone();
    let auth = AuthChain::new(root.clone()).unwrap();
    let mut chain = DocumentChain::new(auth);
    assert!(matches!(
        chain.try_push_diff(diff_with_authentication(42, 2, vec![key(&id, "key-1", "one")])),
        Err(Error::InvalidPreviousMessageId)
    ));
    assert!(chain.diff().is_empty());
    assert_eq!(chain.current(), &root);
}

#[test]
fn push_diff_rejects_an_unsigned_diff() {
    let root = empty_document("did:test:1234", 1);
    let id = root.id.clone();
    let auth = AuthChain::new(root).unwrap();
    let mut chain = DocumentChain::new(auth);
    let mut diff = diff_with_authentication(1, 2, vec![key(&id, "key-1", "one")]);
    diff.signature = SignatureValue::Empty;
    assert!(matches!(chain.try_push_diff(diff), Err(Error::MissingSignature)));
}

#[test]
fn push_diff_rejects_a_malformed_patch_and_keeps_the_chain() {
    let root = empty_document("did:test:1234", 1);
    let id = root.id.clone();
    let auth = AuthChain::new(root.clone()).unwrap();
    let mut chain = DocumentChain::new(auth);
    let diff = diff_with_authentication(
        1,
        2,
        vec![key(&id, "dup", "one"), key(&id, "dup", "two")],
    );
    assert!(matches!(chain.try_push_diff(diff), Err(Error::InvalidDiffPatch)));
    assert!(chain.diff().is_empty());
    assert_eq!(chain.current(), &root);
}

#[test]
fn with_diff_chain_folds_the_given_diffs() {
    let root = empty_document("did:test:1234", 1);
    let id = root.id.clone();
    let auth = AuthChain::new(root.clone()).unwrap();
    let mut diffs = DiffChain::new();
    assert_eq!(diffs.current_message_id(), None);
    diffs.push_unchecked(&auth, diff_with_authentication(1, 2, vec![key(&id, "key-1", "one")]));
    assert_eq!(diffs.current_message_id(), Some(MessageId { value: 2 }));

    let chain = DocumentChain::with_diff_chain(auth, diffs).unwrap();
    let mut expected = root;
    expected.authentication = vec![key(&id, "key-1", "one")];
    assert_eq!(chain.current(), &expected);
    assert_eq!(chain.id(), &id);
}

#[test]
fn with_diff_chain_rejects_a_broken_link() {
    let root = empty_document("did:test:1234", 1);
    let id = root.id.clone();
    let auth = AuthChain::new(root).unwrap();
    let other = AuthChain::new(empty_document("did:test:1234", 99)).unwrap();
    let mut diffs = DiffChain::new();
    // Built against another tip: the pointer does not match this chain's.
    diffs.push_unchecked(&other, diff_with_authentication(99, 2, vec![key(&id, "key-1", "one")]));
    assert!(matches!(
        DocumentChain::with_diff_chain(auth, diffs),
        Err(Error::InvalidPreviousMessageId)
    ));
}

#[test]
fn check_validity_is_a_pure_predicate() {
    let root = empty_document("did:test:1234", 1);
    let id = root.id.clone();
    let auth = AuthChain::new(root).unwrap();
    let diffs = DiffChain::new();
    let good = diff_with_authentication(1, 2, vec![key(&id, "key-1", "one")]);
    let bad = diff_with_authentication(42, 2, vec![key(&id, "key-1", "one")]);
    assert!(diffs.check_validity(&auth, &good).is_ok());
    assert!(matches!(
        diffs.check_validity(&auth, &bad),
        Err(Error::InvalidPreviousMessageId)
    ));
    assert!(diffs.is_empty());
}
