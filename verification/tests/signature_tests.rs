use identity_did::signature::SignatureValue;

#[test]
fn signature_value_kind_predicates() {
    let empty = SignatureValue::Empty;
    let jws = SignatureValue::Jws(String::from("jws-data"));
    let proof_value = SignatureValue::Proof(String::from("proof-data"));
    let signature = SignatureValue::Signature(String::from("signature-data"));

    assert!(empty.is_none());
    assert!(!empty.is_jws());
    assert!(!empty.is_proof());
    assert!(!empty.is_signature());

    assert!(jws.is_jws());
    assert!(!jws.is_none());
    assert!(proof_value.is_proof());
    assert!(!proof_value.is_jws());
    assert!(signature.is_signature());
    assert!(!signature.is_proof());
}

#[test]
fn signature_value_as_str() {
    assert_eq!(SignatureValue::Empty.as_str(), "");
    assert_eq!(SignatureValue::Jws(String::from("a")).as_str(), "a");
    assert_eq!(SignatureValue::Proof(String::from("b")).as_str(), "b");
    assert_eq!(SignatureValue::Signature(String::from("c")).as_str(), "c");
}

#[test]
fn signature_value_into_string() {
    assert_eq!(SignatureValue::Empty.into_string(), String::new());
    assert_eq!(SignatureValue::Jws(String::from("a")).into_string(), String::from("a"));
    assert_eq!(SignatureValue::Proof(String::from("b")).into_string(), String::from("b"));
    assert_eq!(
        SignatureValue::Signature(String::from("c")).into_string(),
        String::from("c")
    );
}

#[test]
fn signature_value_kind_accessors() {
    let jws = SignatureValue::Jws(String::from("a"));
    let proof_value = SignatureValue::Proof(String::from("b"));
    let signature = SignatureValue::Signature(String::from("c"));

    assert_eq!(jws.as_jws(), Some("a"));
    assert_eq!(jws.as_proof(), None);
    assert_eq!(jws.as_signature(), None);

    assert_eq!(proof_value.as_proof(), Some("b"));
    assert_eq!(proof_value.as_jws(), None);

    assert_eq!(signature.as_signature(), Some("c"));
    assert_eq!(signature.as_proof(), None);

    assert_eq!(SignatureValue::Empty.as_jws(), None);
    assert_eq!(SignatureValue::Empty.as_proof(), None);
    assert_eq!(SignatureValue::Empty.as_signature(), None);
}

#[test]
fn signature_value_clone_is_equal() {
    let jws = SignatureValue::Jws(String::from("a"));
    assert_eq!(jws.clone(), jws);
}
