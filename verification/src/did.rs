//! Decentralized identifiers. A [`Did`] is the parsed form of a DID URL:
//! a method name, one to three colon-delimited method-id segments
//! (network, optional shard, tag), and an optional path, query and
//! fragment. Parsing is total: every string either yields a well-formed
//! identifier or is rejected.

use vstd::prelude::*;

use crate::strutil::after_opt;
use crate::strutil::before;
use crate::strutil::find_char;
use crate::strutil::find_from;
use crate::strutil::has_prefix;
use crate::strutil::lemma_find_from;
use crate::strutil::split_on;
use crate::strutil::split_string;
use crate::strutil::str_eq;
use crate::strutil::strings_eq;
use crate::strutil::substring;
use crate::strutil::clone_strings;

verus! {

/// One `key=value` pair of a query component.
#[derive(Debug, PartialEq, Eq)]
pub struct QueryPair {
    pub key: String,
    pub value: String,
}

impl View for QueryPair {
    type V = (Seq<char>, Seq<char>);

    open spec fn view(&self) -> (Seq<char>, Seq<char>) {
        (self.key@, self.value@)
    }
}

impl DeepView for QueryPair {
    type V = (Seq<char>, Seq<char>);

    open spec fn deep_view(&self) -> (Seq<char>, Seq<char>) {
        self@
    }
}

impl Clone for QueryPair {
    /// Cloning yields an equal pair.
    fn clone(&self) -> (r: Self)
        ensures
            r == *self,
    {
        QueryPair { key: self.key.clone(), value: self.value.clone() }
    }
}

/// The mathematical value of a [`Did`].
#[verifier::ext_equal]
pub ghost struct DidView {
    pub method: Seq<char>,
    pub segments: Seq<Seq<char>>,
    pub path: Seq<Seq<char>>,
    pub query: Option<Seq<(Seq<char>, Seq<char>)>>,
    pub fragment: Option<Seq<char>>,
}

/// The network a DID names when its method-specific id has a single segment.
pub open spec fn spec_default_network() -> Seq<char> {
    "main"@
}

/// The network a DID names, given its method-id segments.
pub open spec fn spec_network(segments: Seq<Seq<char>>) -> Seq<char> {
    if segments.len() == 1 {
        spec_default_network()
    } else {
        segments[0]
    }
}

/// Method names hold lower-case letters and digits only.
pub open spec fn method_chars_ok(m: Seq<char>) -> bool {
    forall|i: int| 0 <= i < m.len() ==> ('a' <= #[trigger] m[i] <= 'z' || '0' <= m[i] <= '9')
}

/// A well-formed identifier: a non-empty method of valid characters, and
/// one to three non-empty method-id segments.
pub open spec fn did_view_wf(d: DidView) -> bool {
    &&& d.method.len() > 0
    &&& method_chars_ok(d.method)
    &&& 1 <= d.segments.len() <= 3
    &&& forall|i: int| 0 <= i < d.segments.len() ==> (#[trigger] d.segments[i]).len() > 0
}

/// The pairs a query string denotes: chunks cut at `&`, each cut at its
/// first `=` into key and value (an absent `=` leaves the value empty).
pub open spec fn spec_parse_query(q: Seq<char>) -> Seq<(Seq<char>, Seq<char>)> {
    split_on(q, '&').map_values(
        |chunk: Seq<char>|
            (
                before(chunk, '='),
                match after_opt(chunk, '=') {
                    Some(v) => v,
                    None => Seq::<char>::empty(),
                },
            ),
    )
}

/// The identifier a string denotes, if any. The fragment is everything
/// after the first `#`; before it, the query is everything after the first
/// `?`; before that, the path is everything after the first `/`; the rest
/// must read `did:<method>:<segments>` with one to three non-empty
/// segments.
pub open spec fn spec_parse_did(s: Seq<char>) -> Option<DidView> {
    let bf = before(s, '#');
    let bq = before(bf, '?');
    let core = before(bq, '/');
    let parts = split_on(core, ':');
    if 3 <= parts.len() <= 5 && parts[0] == "did"@ && parts[1].len() > 0 && method_chars_ok(
        parts[1],
    ) && (forall|i: int| 2 <= i < parts.len() ==> (#[trigger] parts[i]).len() > 0) {
        Some(
            DidView {
                method: parts[1],
                segments: parts.skip(2),
                path: if find_from(bq, '/', 0) == bq.len() {
                    Seq::empty()
                } else {
                    split_on(bq.skip(find_from(bq, '/', 0) + 1), '/')
                },
                query: match after_opt(bf, '?') {
                    Some(q) => Some(spec_parse_query(q)),
                    None => None,
                },
                fragment: after_opt(s, '#'),
            },
        )
    } else {
        None
    }
}

/// A parsed identifier is well-formed.
pub proof fn lemma_parse_wf(s: Seq<char>)
    ensures
        spec_parse_did(s) matches Some(d) ==> did_view_wf(d),
{
}

/// A decentralized identifier with its DID-URL components.
#[derive(Debug, PartialEq, Eq)]
pub struct Did {
    method: String,
    segments: Vec<String>,
    path: Vec<String>,
    query: Option<Vec<QueryPair>>,
    fragment: Option<String>,
}

impl View for Did {
    type V = DidView;

    closed spec fn view(&self) -> DidView {
        DidView {
            method: self.method@,
            segments: self.segments.deep_view(),
            path: self.path.deep_view(),
            query: self.query.deep_view(),
            fragment: self.fragment.deep_view(),
        }
    }
}

/// True when each lower-case letter or digit test passes for every
/// character of the method name, and the name is non-empty.
pub(crate) fn method_ok(m: &str) -> (r: bool)
    ensures
        r == (m@.len() > 0 && method_chars_ok(m@)),
{
    let len = m.unicode_len();
    if len == 0 {
        return false;
    }
    let mut i: usize = 0;
    while i < len
        invariant
            i <= len,
            len == m@.len(),
            forall|j: int| 0 <= j < i ==> ('a' <= #[trigger] m@[j] <= 'z' || '0' <= m@[j] <= '9'),
        decreases len - i,
    {
        let c = m.get_char(i);
        if !(('a' <= c && c <= 'z') || ('0' <= c && c <= '9')) {
            return false;
        }
        i += 1;
    }
    true
}

/// The pairs of a query string, per [`spec_parse_query`].
pub(crate) fn parse_query_string(q: &str) -> (r: Vec<QueryPair>)
    ensures
        r.deep_view() == spec_parse_query(q@),
{
    let chunks = split_string(q, '&');
    let mut pairs: Vec<QueryPair> = Vec::new();
    let ghost target = spec_parse_query(q@);
    let mut i: usize = 0;
    while i < chunks.len()
        invariant
            i <= chunks.len(),
            chunks.deep_view() == split_on(q@, '&'),
            target == spec_parse_query(q@),
            pairs.deep_view().len() == i,
            forall|j: int| 0 <= j < i ==> pairs.deep_view()[j] == target[j],
        decreases chunks.len() - i,
    {
        let chunk: &String = &chunks[i];
        proof {
            assert(chunk@ == chunks.deep_view()[i as int]);
        }
        let clen = chunk.as_str().unicode_len();
        let eq = find_char(chunk.as_str(), '=', 0);
        let key = substring(chunk.as_str(), 0, eq);
        let value = if eq == clen {
            String::new()
        } else {
            substring(chunk.as_str(), eq + 1, clen)
        };
        let ghost old_dv = pairs.deep_view();
        pairs.push(QueryPair { key, value });
        proof {
            let sp = split_on(q@, '&');
            let cv = sp[i as int];
            assert(target.len() == sp.len());
            assert(target[i as int] == (
                before(cv, '='),
                match after_opt(cv, '=') {
                    Some(v) => v,
                    None => Seq::<char>::empty(),
                },
            ));
            assert(key@ == before(cv, '='));
            assert(value@ == match after_opt(cv, '=') {
                Some(v) => v,
                None => Seq::<char>::empty(),
            });
            assert(pairs.deep_view() =~= old_dv.push((key@, value@)));
        }
        i += 1;
    }
    proof {
        assert(pairs.deep_view() =~= target);
    }
    pairs
}

impl Did {
    /// A well-formed identifier; parsing establishes it and every operation
    /// preserves it.
    pub open spec fn wf(&self) -> bool {
        did_view_wf(self@)
    }

    /// Parses a DID URL. Total: returns `None` exactly on the strings that
    /// [`spec_parse_did`] rejects.
    pub fn parse(input: &str) -> (r: Option<Did>)
        ensures
            match r {
                Some(d) => spec_parse_did(input@) == Some(d@) && d.wf(),
                None => spec_parse_did(input@) is None,
            },
    {
        let len = input.unicode_len();
        let hash = find_char(input, '#', 0);
        let fragment: Option<String> = if hash == len {
            None
        } else {
            Some(substring(input, hash + 1, len))
        };
        let bf = substring(input, 0, hash);
        let bflen = hash;
        let qpos = find_char(bf.as_str(), '?', 0);
        let query: Option<Vec<QueryPair>> = if qpos == bflen {
            None
        } else {
            Some(parse_query_string(substring(bf.as_str(), qpos + 1, bflen).as_str()))
        };
        let bq = substring(bf.as_str(), 0, qpos);
        let bqlen = qpos;
        let slash = find_char(bq.as_str(), '/', 0);
        let path: Vec<String> = if slash == bqlen {
            Vec::new()
        } else {
            split_string(substring(bq.as_str(), slash + 1, bqlen).as_str(), '/')
        };
        let core = substring(bq.as_str(), 0, slash);
        let parts = split_string(core.as_str(), ':');
        proof {
            assert(parts.deep_view() == split_on(before(before(before(input@, '#'), '?'), '/'),
                ':'));
        }
        if parts.len() < 3 || parts.len() > 5 {
            return None;
        }
        if !str_eq(parts[0].as_str(), "did") {
            return None;
        }
        if !method_ok(parts[1].as_str()) {
            return None;
        }
        let mut i: usize = 2;
        while i < parts.len()
            invariant
                2 <= i <= parts.len(),
                parts.deep_view() == split_on(before(before(before(input@, '#'), '?'), '/'), ':'),
                forall|j: int| 2 <= j < i ==> (#[trigger] parts.deep_view()[j]).len() > 0,
            decreases parts.len() - i,
        {
            if parts[i].as_str().is_empty() {
                proof {
                    let sp = split_on(before(before(before(input@, '#'), '?'), '/'), ':');
                    assert(sp[i as int].len() == 0);
                    assert(spec_parse_did(input@) is None);
                }
                return None;
            }
            i += 1;
        }
        let method = parts[1].clone();
        let mut segments: Vec<String> = Vec::new();
        let mut k: usize = 2;
        while k < parts.len()
            invariant
                2 <= k <= parts.len(),
                segments.deep_view() =~= parts.deep_view().subrange(2, k as int),
            decreases parts.len() - k,
        {
            let ghost old_dv = segments.deep_view();
            segments.push(parts[k].clone());
            proof {
                assert(segments.deep_view() =~= old_dv.push(parts.deep_view()[k as int]));
                assert(parts.deep_view().subrange(2, k as int + 1) =~= parts.deep_view().subrange(
                    2,
                    k as int,
                ).push(parts.deep_view()[k as int]));
            }
            k += 1;
        }
        let d = Did { method, segments, path, query, fragment };
        proof {
            assert(segments.deep_view() =~= parts.deep_view().skip(2));
            assert(d@ =~~= spec_parse_did(input@)->Some_0);
        }
        Some(d)
    }
}

/// The value of the first query pair whose key equals `key`, if any.
pub open spec fn spec_find_pair(pairs: Seq<(Seq<char>, Seq<char>)>, key: Seq<char>) -> Option<
    Seq<char>,
>
    decreases pairs.len(),
{
    if pairs.len() == 0 {
        None
    } else if pairs[0].0 == key {
        Some(pairs[0].1)
    } else {
        spec_find_pair(pairs.skip(1), key)
    }
}

/// The value the query component gives for `key`, if the component is
/// present and holds such a pair.
pub open spec fn spec_query_value(
    q: Option<Seq<(Seq<char>, Seq<char>)>>,
    key: Seq<char>,
) -> Option<Seq<char>> {
    match q {
        Some(pairs) => spec_find_pair(pairs, key),
        None => None,
    }
}

/// The identifier a reference denotes against a base identifier: a
/// reference opening with `did:` must itself parse; a path reference
/// replaces the base's path, query and fragment; a query reference keeps
/// the base's path; a fragment reference keeps the base's path and query;
/// an empty reference clears the fragment.
pub open spec fn spec_join(base: DidView, r: Seq<char>) -> Option<DidView> {
    if r.len() >= 4 && r.subrange(0, 4) == "did:"@ {
        spec_parse_did(r)
    } else {
        let frag = after_opt(r, '#');
        let bf = before(r, '#');
        let q = after_opt(bf, '?');
        let bq = before(bf, '?');
        if bq.len() > 0 {
            let p = if bq[0] == '/' {
                split_on(bq.skip(1), '/')
            } else {
                split_on(bq, '/')
            };
            Some(
                DidView {
                    path: p,
                    query: match q {
                        Some(qs) => Some(spec_parse_query(qs)),
                        None => None,
                    },
                    fragment: frag,
                    ..base
                },
            )
        } else if q is Some {
            Some(
                DidView {
                    query: Some(spec_parse_query(q->Some_0)),
                    fragment: frag,
                    ..base
                },
            )
        } else {
            Some(DidView { fragment: frag, ..base })
        }
    }
}

impl Did {
    /// The method name.
    pub fn method(&self) -> (r: &str)
        ensures
            r@ == self@.method,
    {
        self.method.as_str()
    }

    /// The network the identifier names: the default when the method-id has
    /// a single segment, else the first segment.
    pub fn network(&self) -> (r: String)
        requires
            self.wf(),
        ensures
            r@ == spec_network(self@.segments),
    {
        if self.segments.len() == 1 {
            String::from_str("main")
        } else {
            self.segments[0].clone()
        }
    }

    /// The shard, present exactly when the method-id has three segments.
    pub fn shard(&self) -> (r: Option<String>)
        requires
            self.wf(),
        ensures
            r.deep_view() == (if self@.segments.len() == 3 {
                Some(self@.segments[1])
            } else {
                None::<Seq<char>>
            }),
    {
        if self.segments.len() == 3 {
            Some(self.segments[1].clone())
        } else {
            None
        }
    }

    /// The unique tag: the last method-id segment.
    pub fn tag(&self) -> (r: String)
        requires
            self.wf(),
        ensures
            r@ == self@.segments.last(),
    {
        self.segments[self.segments.len() - 1].clone()
    }

    /// The method-id segments.
    pub fn segments(&self) -> (r: Segments)
        requires
            self.wf(),
        ensures
            r@ == self@.segments,
            r.wf(),
    {
        Segments { parts: clone_strings(&self.segments) }
    }

    /// The fragment component, if any.
    pub fn fragment(&self) -> (r: Option<&str>)
        ensures
            match r {
                Some(f) => self@.fragment == Some(f@),
                None => self@.fragment is None,
            },
    {
        match &self.fragment {
            Some(f) => Some(f.as_str()),
            None => None,
        }
    }

    /// Whether the identifier carries a path component.
    pub fn has_path(&self) -> (r: bool)
        ensures
            r == (self@.path.len() > 0),
    {
        self.path.len() > 0
    }

    /// The path segments.
    pub fn path(&self) -> (r: &Vec<String>)
        ensures
            r.deep_view() == self@.path,
    {
        &self.path
    }

    /// The query component.
    pub fn query(&self) -> (r: &Option<Vec<QueryPair>>)
        ensures
            r.deep_view() == self@.query,
    {
        &self.query
    }

    /// Whether the identifier carries a query component.
    pub fn has_query(&self) -> (r: bool)
        ensures
            r == (self@.query is Some),
    {
        self.query.is_some()
    }

    /// Replaces the fragment component.
    pub fn set_fragment(&mut self, f: Option<String>)
        ensures
            final(self)@ == (DidView { fragment: f.deep_view(), ..old(self)@ }),
            final(self).wf() == old(self).wf(),
    {
        self.fragment = f;
        proof {
            assert(self@ =~~= (DidView { fragment: self.fragment.deep_view(), ..old(self)@ }));
        }
    }

    /// The value of the first query pair whose key equals `key`, if any.
    pub fn query_value(&self, key: &str) -> (r: Option<String>)
        ensures
            r.deep_view() == spec_query_value(self@.query, key@),
    {
        match &self.query {
            None => None,
            Some(pairs) => {
                let ghost full = pairs.deep_view();
                proof {
                    assert(full.skip(0) =~= full);
                }
                let mut i: usize = 0;
                while i < pairs.len()
                    invariant
                        i <= pairs.len(),
                        full == pairs.deep_view(),
                        self@.query == Some(full),
                        spec_find_pair(full, key@) == spec_find_pair(full.skip(i as int), key@),
                    decreases pairs.len() - i,
                {
                    if str_eq(pairs[i].key.as_str(), key) {
                        proof {
                            assert(full.skip(i as int)[0] == full[i as int]);
                            assert(full[i as int] == pairs[i as int]@);
                        }
                        return Some(pairs[i].value.clone());
                    }
                    i += 1;
                    proof {
                        assert(full.skip(i as int - 1).skip(1) =~= full.skip(i as int));
                        assert(full.skip(i as int - 1)[0] == full[i as int - 1]);
                    }
                }
                proof {
                    assert(full.skip(i as int) =~= Seq::<(Seq<char>, Seq<char>)>::empty());
                }
                None
            },
        }
    }

    /// Resolves a reference against this identifier, per [`spec_join`].
    pub fn join(&self, reference: &str) -> (r: Option<Did>)
        requires
            self.wf(),
        ensures
            match r {
                Some(d) => spec_join(self@, reference@) == Some(d@) && d.wf(),
                None => spec_join(self@, reference@) is None,
            },
    {
        proof {
            reveal_strlit("did:");
        }
        if has_prefix(reference, "did:") {
            return Did::parse(reference);
        }
        let len = reference.unicode_len();
        let hash = find_char(reference, '#', 0);
        let fragment: Option<String> = if hash == len {
            None
        } else {
            Some(substring(reference, hash + 1, len))
        };
        let bf = substring(reference, 0, hash);
        let qpos = find_char(bf.as_str(), '?', 0);
        let query: Option<Vec<QueryPair>> = if qpos == hash {
            None
        } else {
            Some(parse_query_string(substring(bf.as_str(), qpos + 1, hash).as_str()))
        };
        let bq = substring(bf.as_str(), 0, qpos);
        let bqlen = qpos;
        if bqlen > 0 {
            let path = if bq.as_str().get_char(0) == '/' {
                split_string(substring(bq.as_str(), 1, bqlen).as_str(), '/')
            } else {
                split_string(bq.as_str(), '/')
            };
            let d = Did {
                method: self.method.clone(),
                segments: clone_strings(&self.segments),
                path,
                query,
                fragment,
            };
            proof {
                assert(d@ =~~= spec_join(self@, reference@)->Some_0);
            }
            Some(d)
        } else {
            match query {
                Some(qv) => {
                    let d = Did {
                        method: self.method.clone(),
                        segments: clone_strings(&self.segments),
                        path: clone_strings(&self.path),
                        query: Some(qv),
                        fragment,
                    };
                    proof {
                        assert(d@ =~~= spec_join(self@, reference@)->Some_0);
                    }
                    Some(d)
                },
                None => {
                    let d = Did {
                        method: self.method.clone(),
                        segments: clone_strings(&self.segments),
                        path: clone_strings(&self.path),
                        query: clone_query(&self.query),
                        fragment,
                    };
                    proof {
                        assert(d@ =~~= spec_join(self@, reference@)->Some_0);
                    }
                    Some(d)
                },
            }
        }
    }
}

/// A copy of a vector of query pairs, with the same view.
pub(crate) fn clone_pairs(v: &Vec<QueryPair>) -> (r: Vec<QueryPair>)
    ensures
        r.deep_view() == v.deep_view(),
{
    let mut r: Vec<QueryPair> = Vec::new();
    let mut i: usize = 0;
    while i < v.len()
        invariant
            i <= v.len(),
            r.deep_view() =~= v.deep_view().subrange(0, i as int),
        decreases v.len() - i,
    {
        let ghost old_dv = r.deep_view();
        r.push(v[i].clone());
        proof {
            assert(r.deep_view() =~= old_dv.push(v.deep_view()[i as int]));
            assert(v.deep_view().subrange(0, i as int + 1) =~= v.deep_view().subrange(
                0,
                i as int,
            ).push(v.deep_view()[i as int]));
        }
        i += 1;
    }
    proof {
        assert(r.deep_view() =~= v.deep_view());
    }
    r
}

/// A copy of an optional query component, with the same view.
fn clone_query(v: &Option<Vec<QueryPair>>) -> (r: Option<Vec<QueryPair>>)
    ensures
        r.deep_view() == v.deep_view(),
{
    match v {
        Some(pairs) => Some(clone_pairs(pairs)),
        None => None,
    }
}

impl Clone for Did {
    /// Cloning yields an identifier with the same view.
    fn clone(&self) -> (r: Self)
        ensures
            r@ == self@,
            r.wf() == self.wf(),
    {
        let r = Did {
            method: self.method.clone(),
            segments: clone_strings(&self.segments),
            path: clone_strings(&self.path),
            query: clone_query(&self.query),
            fragment: match &self.fragment {
                Some(f) => Some(f.clone()),
                None => None,
            },
        };
        proof {
            assert(r@ =~~= self@);
        }
        r
    }
}

/// The logical segments of a method-specific id: network, optional shard,
/// and tag, by segment count.
#[derive(Debug, PartialEq, Eq)]
pub struct Segments {
    pub(crate) parts: Vec<String>,
}

impl View for Segments {
    type V = Seq<Seq<char>>;

    closed spec fn view(&self) -> Seq<Seq<char>> {
        self.parts.deep_view()
    }
}

impl Segments {
    /// One to three segments, as a valid identifier's method-id has.
    pub open spec fn wf(&self) -> bool {
        1 <= self@.len() <= 3
    }

    /// The number of segments.
    pub fn count(&self) -> (r: usize)
        ensures
            r == self@.len(),
    {
        self.parts.len()
    }

    /// The network: the default for a single segment, else the first.
    pub fn network(&self) -> (r: String)
        requires
            self.wf(),
        ensures
            r@ == spec_network(self@),
    {
        if self.parts.len() == 1 {
            String::from_str("main")
        } else {
            self.parts[0].clone()
        }
    }

    /// Whether the network is the default one.
    pub fn is_default_network(&self) -> (r: bool)
        requires
            self.wf(),
        ensures
            r == (spec_network(self@) == spec_default_network()),
    {
        if self.parts.len() == 1 {
            true
        } else {
            str_eq(self.parts[0].as_str(), "main")
        }
    }

    /// The shard, present exactly for three segments.
    pub fn shard(&self) -> (r: Option<String>)
        requires
            self.wf(),
        ensures
            r.deep_view() == (if self@.len() == 3 {
                Some(self@[1])
            } else {
                None::<Seq<char>>
            }),
    {
        if self.parts.len() == 3 {
            Some(self.parts[1].clone())
        } else {
            None
        }
    }

    /// The unique tag: the last segment.
    pub fn tag(&self) -> (r: String)
        requires
            self.wf(),
        ensures
            r@ == self@.last(),
    {
        self.parts[self.parts.len() - 1].clone()
    }
}


/// True exactly when the two vectors hold the same pairs.
pub(crate) fn pairs_eq(a: &Vec<QueryPair>, b: &Vec<QueryPair>) -> (r: bool)
    ensures
        r == (a.deep_view() == b.deep_view()),
{
    if a.len() != b.len() {
        proof {
            assert(a.deep_view().len() != b.deep_view().len());
        }
        return false;
    }
    let mut i: usize = 0;
    while i < a.len()
        invariant
            i <= a.len(),
            a.len() == b.len(),
            forall|j: int| 0 <= j < i ==> a.deep_view()[j] == b.deep_view()[j],
        decreases a.len() - i,
    {
        if !str_eq(a[i].key.as_str(), b[i].key.as_str()) || !str_eq(
            a[i].value.as_str(),
            b[i].value.as_str(),
        ) {
            proof {
                assert(a.deep_view()[i as int] != b.deep_view()[i as int]);
            }
            return false;
        }
        i += 1;
    }
    proof {
        assert(a.deep_view() =~= b.deep_view());
    }
    true
}

/// True exactly when the two identifiers have the same value, every
/// component included.
pub fn did_eq(a: &Did, b: &Did) -> (r: bool)
    ensures
        r == (a@ == b@),
{
    let m = str_eq(a.method.as_str(), b.method.as_str());
    let s = strings_eq(&a.segments, &b.segments);
    let p = strings_eq(&a.path, &b.path);
    let q = match (&a.query, &b.query) {
        (None, None) => true,
        (Some(x), Some(y)) => pairs_eq(x, y),
        _ => false,
    };
    let f = match (&a.fragment, &b.fragment) {
        (None, None) => true,
        (Some(x), Some(y)) => str_eq(x.as_str(), y.as_str()),
        _ => false,
    };
    let r = m && s && p && q && f;
    proof {
        if r {
            assert(a@ =~~= b@);
        }
    }
    r
}

} // verus!

