use identity_did::did::Did;
use identity_did::url::Url;

#[test]
fn segments_of_a_one_segment_identifier() {
    let d = Did::parse("did:iota:tag123").unwrap();
    let s = d.segments();
    assert_eq!(s.count(), 1);
    assert_eq!(s.network(), "main");
    assert!(s.is_default_network());
    assert_eq!(s.shard(), None);
    assert_eq!(s.tag(), "tag123");
}

#[test]
fn segments_of_a_two_segment_identifier() {
    let d = Did::parse("did:iota:dev:tag123").unwrap();
    let s = d.segments();
    assert_eq!(s.count(), 2);
    assert_eq!(s.network(), "dev");
    assert!(!s.is_default_network());
    assert_eq!(s.shard(), None);
    assert_eq!(s.tag(), "tag123");
}

#[test]
fn segments_of_a_three_segment_identifier() {
    let d = Did::parse("did:iota:dev:shard7:tag123").unwrap();
    let s = d.segments();
    assert_eq!(s.count(), 3);
    assert_eq!(s.network(), "dev");
    assert_eq!(s.shard(), Some(String::from("shard7")));
    assert_eq!(s.tag(), "tag123");
}

#[test]
fn segments_of_an_explicit_default_network() {
    let d = Did::parse("did:iota:main:tag123").unwrap();
    assert!(d.segments().is_default_network());
}

#[test]
fn did_accessors_mirror_the_segments() {
    let d = Did::parse("did:iota:dev:shard7:tag123").unwrap();
    assert_eq!(d.method(), "iota");
    assert_eq!(d.network(), "dev");
    assert_eq!(d.shard(), Some(String::from("shard7")));
    assert_eq!(d.tag(), "tag123");

    let single = Did::parse("did:iota:tag123").unwrap();
    assert_eq!(single.network(), "main");
    assert_eq!(single.shard(), None);
}

#[test]
fn parse_rejects_malformed_identifiers() {
    assert!(Did::parse("not-a-valid-did").is_none());
    assert!(Did::parse("").is_none());
    assert!(Did::parse("did:").is_none());
    assert!(Did::parse("did:test").is_none());
    assert!(Did::parse("did:test:").is_none());
    assert!(Did::parse("did:TEST:abc").is_none());
    assert!(Did::parse("did:test:a:b:c:d").is_none());
    assert!(Did::parse("x:test:abc").is_none());
    assert!(Did::parse("did:test::abc").is_none());
}

#[test]
fn parse_extracts_every_component() {
    let d = Did::parse("did:test:abc/p1/p2?x=1&y=2#frag").unwrap();
    assert_eq!(d.method(), "test");
    assert_eq!(d.tag(), "abc");
    assert!(d.has_path());
    assert_eq!(d.path(), &vec![String::from("p1"), String::from("p2")]);
    assert!(d.has_query());
    assert_eq!(d.query_value("x"), Some(String::from("1")));
    assert_eq!(d.query_value("y"), Some(String::from("2")));
    assert_eq!(d.query_value("z"), None);
    assert_eq!(d.fragment(), Some("frag"));
}

#[test]
fn parse_without_optional_components() {
    let d = Did::parse("did:test:abc").unwrap();
    assert!(!d.has_path());
    assert!(!d.has_query());
    assert_eq!(d.fragment(), None);
    assert_eq!(d.query_value("x"), None);
}

#[test]
fn join_a_fragment_reference() {
    let base = Did::parse("did:test:1234").unwrap();
    let d = base.join("#fragment").unwrap();
    assert_eq!(d.fragment(), Some("fragment"));
    assert_eq!(d.tag(), "1234");
}

#[test]
fn join_a_query_reference() {
    let base = Did::parse("did:test:1234").unwrap();
    let d = base.join("?query=this").unwrap();
    assert_eq!(d.query_value("query"), Some(String::from("this")));
    assert_eq!(d.fragment(), None);
}

#[test]
fn join_a_path_reference() {
    let base = Did::parse("did:test:1234?old=1#old").unwrap();
    let d = base.join("/p1/p2").unwrap();
    assert_eq!(d.path(), &vec![String::from("p1"), String::from("p2")]);
    // A path reference replaces the query and fragment as well.
    assert!(!d.has_query());
    assert_eq!(d.fragment(), None);
}

#[test]
fn join_an_absolute_reference() {
    let base = Did::parse("did:test:1234").unwrap();
    let d = base.join("did:other:xyz#k").unwrap();
    assert_eq!(d.method(), "other");
    assert_eq!(d.tag(), "xyz");
    assert_eq!(d.fragment(), Some("k"));
    assert!(base.join("did:BAD:xyz").is_none());
}

#[test]
fn join_an_empty_reference_clears_the_fragment() {
    let base = Did::parse("did:test:1234#frag").unwrap();
    let d = base.join("").unwrap();
    assert_eq!(d.fragment(), None);
    assert_eq!(d.tag(), "1234");
}

#[test]
fn set_fragment_replaces_only_the_fragment() {
    let mut d = Did::parse("did:test:1234?x=1#old").unwrap();
    d.set_fragment(Some(String::from("new")));
    assert_eq!(d.fragment(), Some("new"));
    assert_eq!(d.query_value("x"), Some(String::from("1")));
    d.set_fragment(None);
    assert_eq!(d.fragment(), None);
}

#[test]
fn parsed_identifiers_compare_by_value() {
    let a = Did::parse("did:test:1234#f").unwrap();
    let b = Did::parse("did:test:1234#f").unwrap();
    let c = Did::parse("did:test:9999").unwrap();
    assert_eq!(a, b);
    assert_ne!(a, c);
}

#[test]
fn url_parse_extracts_every_component() {
    let u = Url::parse("https://host.example.com/a/b?x=1#f").unwrap();
    assert_eq!(u.scheme(), "https");
    assert!(u.has_query());
    assert_eq!(u.fragment(), Some("f"));
}

#[test]
fn url_parse_rejects_malformed_urls() {
    assert!(Url::parse("host.example.com").is_none());
    assert!(Url::parse("https://").is_none());
    assert!(Url::parse("HTTPS://host").is_none());
    assert!(Url::parse("https:/host").is_none());
}

#[test]
fn url_join_resolves_dot_segments() {
    let base = Url::parse("https://h/a/b").unwrap();
    assert_eq!(base.join("../c").unwrap(), Url::parse("https://h/c").unwrap());
    assert_eq!(base.join("./d").unwrap(), Url::parse("https://h/a/d").unwrap());
    assert_eq!(base.join("/abs").unwrap(), Url::parse("https://h/abs").unwrap());
}

#[test]
fn url_join_query_and_fragment_references() {
    let base = Url::parse("https://h/a/b").unwrap();
    assert_eq!(base.join("?q=1").unwrap(), Url::parse("https://h/a/b?q=1").unwrap());
    assert_eq!(base.join("#f").unwrap(), Url::parse("https://h/a/b#f").unwrap());
    assert_eq!(
        base.join("https://other/x").unwrap(),
        Url::parse("https://other/x").unwrap()
    );
}

#[test]
fn url_without_query_fragment_strips_both() {
    let u = Url::parse("https://h/p?a=1#f").unwrap();
    assert_eq!(u.without_query_fragment(), Url::parse("https://h/p").unwrap());
}

#[test]
fn url_set_fragment_replaces_only_the_fragment() {
    let mut u = Url::parse("https://h/p?a=1").unwrap();
    u.set_fragment(Some(String::from("f")));
    assert_eq!(u, Url::parse("https://h/p?a=1#f").unwrap());
}
