//! Service endpoint URLs. A [`Url`] is the parsed form of an absolute
//! `scheme://authority[/path][?query][#fragment]` URL, with the operations
//! Service Endpoint Construction needs: stripping and attaching query and
//! fragment components, appending path segments, and resolving a relative
//! reference.

use vstd::prelude::*;

use crate::did::method_chars_ok;
use crate::did::spec_parse_query;
use crate::did::QueryPair;
use crate::strutil::after_opt;
use crate::strutil::before;
use crate::strutil::clone_strings;
use crate::strutil::find_char;
use crate::strutil::find_from;
use crate::strutil::split_on;
use crate::strutil::split_string;
use crate::strutil::str_eq;
use crate::strutil::substring;

verus! {

/// The mathematical value of a [`Url`].
#[verifier::ext_equal]
pub ghost struct UrlView {
    pub scheme: Seq<char>,
    pub authority: Seq<char>,
    pub path: Seq<Seq<char>>,
    pub query: Option<Seq<(Seq<char>, Seq<char>)>>,
    pub fragment: Option<Seq<char>>,
}

/// A well-formed URL: a non-empty scheme of lower-case letters and digits,
/// and a non-empty authority.
pub open spec fn url_view_wf(u: UrlView) -> bool {
    &&& u.scheme.len() > 0
    &&& method_chars_ok(u.scheme)
    &&& u.authority.len() > 0
}

/// True when `r` opens with `scheme://` for a non-empty scheme of valid
/// characters.
pub open spec fn spec_has_scheme(r: Seq<char>) -> bool {
    let i = find_from(r, ':', 0);
    &&& 1 <= i
    &&& i + 3 <= r.len()
    &&& r[i + 1] == '/'
    &&& r[i + 2] == '/'
    &&& method_chars_ok(r.take(i))
}

/// The URL a string denotes, if any: `scheme://authority`, then an optional
/// `/`-led path, `?`-led query and `#`-led fragment, the fragment cut first.
pub open spec fn spec_parse_url(s: Seq<char>) -> Option<UrlView> {
    if spec_has_scheme(s) {
        let i = find_from(s, ':', 0);
        let rest = s.skip(i + 3);
        let bf = before(rest, '#');
        let bq = before(bf, '?');
        let slash = find_from(bq, '/', 0);
        if slash >= 1 {
            Some(
                UrlView {
                    scheme: s.take(i),
                    authority: bq.take(slash),
                    path: if slash == bq.len() {
                        Seq::empty()
                    } else {
                        split_on(bq.skip(slash + 1), '/')
                    },
                    query: match after_opt(bf, '?') {
                        Some(q) => Some(spec_parse_query(q)),
                        None => None,
                    },
                    fragment: after_opt(rest, '#'),
                },
            )
        } else {
            None
        }
    } else {
        None
    }
}

/// Path merging for a relative-path reference: all but the base path's last
/// segment, then the reference's segments.
pub open spec fn merge_paths(base: Seq<Seq<char>>, rel: Seq<Seq<char>>) -> Seq<Seq<char>> {
    if base.len() == 0 {
        rel
    } else {
        base.drop_last() + rel
    }
}

/// Dot-segment removal: `.` segments are dropped, and `..` segments drop
/// the segment before them, if any.
pub open spec fn remove_dots(p: Seq<Seq<char>>) -> Seq<Seq<char>>
    decreases p.len(),
{
    if p.len() == 0 {
        Seq::empty()
    } else {
        let prev = remove_dots(p.drop_last());
        let last = p.last();
        if last == "."@ {
            prev
        } else if last == ".."@ {
            if prev.len() > 0 {
                prev.drop_last()
            } else {
                prev
            }
        } else {
            prev.push(last)
        }
    }
}

/// The URL a reference denotes against a base URL: a reference with a
/// scheme must itself parse; a path reference replaces or merges the path
/// (dot segments removed) and takes the reference's query and fragment; a
/// query reference keeps the base's path; a fragment reference keeps the
/// base's path and query; an empty reference clears the fragment.
pub open spec fn spec_join_url(base: UrlView, r: Seq<char>) -> Option<UrlView> {
    if spec_has_scheme(r) {
        spec_parse_url(r)
    } else {
        let frag = after_opt(r, '#');
        let bf = before(r, '#');
        let q = after_opt(bf, '?');
        let bq = before(bf, '?');
        if bq.len() > 0 {
            let segs = if bq[0] == '/' {
                split_on(bq.skip(1), '/')
            } else {
                merge_paths(base.path, split_on(bq, '/'))
            };
            Some(
                UrlView {
                    path: remove_dots(segs),
                    query: match q {
                        Some(qs) => Some(spec_parse_query(qs)),
                        None => None,
                    },
                    fragment: frag,
                    ..base
                },
            )
        } else if q is Some {
            Some(
                UrlView {
                    query: Some(spec_parse_query(q->Some_0)),
                    fragment: frag,
                    ..base
                },
            )
        } else {
            Some(UrlView { fragment: frag, ..base })
        }
    }
}

/// How an attached query extends a URL's query component: appended to the
/// pairs already present, if any.
pub open spec fn spec_extend_query(
    cur: Option<Seq<(Seq<char>, Seq<char>)>>,
    add: Option<Seq<(Seq<char>, Seq<char>)>>,
) -> Option<Seq<(Seq<char>, Seq<char>)>> {
    match add {
        None => cur,
        Some(a) => match cur {
            Some(c) => Some(c + a),
            None => Some(a),
        },
    }
}

/// An absolute URL, as a service endpoint declares one.
#[derive(Debug, PartialEq, Eq)]
pub struct Url {
    scheme: String,
    authority: String,
    path: Vec<String>,
    query: Option<Vec<QueryPair>>,
    fragment: Option<String>,
}

impl View for Url {
    type V = UrlView;

    closed spec fn view(&self) -> UrlView {
        UrlView {
            scheme: self.scheme@,
            authority: self.authority@,
            path: self.path.deep_view(),
            query: self.query.deep_view(),
            fragment: self.fragment.deep_view(),
        }
    }
}

/// True when the reference opens with `scheme://`, per [`spec_has_scheme`].
fn has_scheme(r: &str) -> (res: bool)
    ensures
        res == spec_has_scheme(r@),
{
    let len = r.unicode_len();
    let ci = find_char(r, ':', 0);
    if ci < 1 || len - ci < 3 {
        return false;
    }
    if r.get_char(ci + 1) != '/' || r.get_char(ci + 2) != '/' {
        return false;
    }
    crate::did::method_ok(substring(r, 0, ci).as_str())
}

/// A copy of an optional query component, with the same view.
fn clone_query(v: &Option<Vec<QueryPair>>) -> (r: Option<Vec<QueryPair>>)
    ensures
        r.deep_view() == v.deep_view(),
{
    match v {
        Some(pairs) => Some(crate::did::clone_pairs(pairs)),
        None => None,
    }
}

/// `.` and `..` segments removed, per [`remove_dots`].
fn remove_dots_vec(v: Vec<String>) -> (r: Vec<String>)
    ensures
        r.deep_view() == remove_dots(v.deep_view()),
{
    let mut r: Vec<String> = Vec::new();
    let mut i: usize = 0;
    while i < v.len()
        invariant
            i <= v.len(),
            r.deep_view() == remove_dots(v.deep_view().take(i as int)),
        decreases v.len() - i,
    {
        proof {
            assert(v.deep_view().take(i as int + 1).drop_last() =~= v.deep_view().take(i as int));
            assert(v.deep_view().take(i as int + 1).last() == v.deep_view()[i as int]);
        }
        let ghost old_dv = r.deep_view();
        if str_eq(v[i].as_str(), ".") {
            // dropped
        } else if str_eq(v[i].as_str(), "..") {
            if r.len() > 0 {
                r.pop();
                proof {
                    assert(r.deep_view() =~= old_dv.drop_last());
                }
            }
        } else {
            r.push(v[i].clone());
            proof {
                assert(r.deep_view() =~= old_dv.push(v.deep_view()[i as int]));
            }
        }
        i += 1;
    }
    proof {
        assert(v.deep_view().take(v.deep_view().len() as int) =~= v.deep_view());
    }
    r
}

impl Url {
    /// A well-formed URL; parsing establishes it and every operation
    /// preserves it.
    pub open spec fn wf(&self) -> bool {
        url_view_wf(self@)
    }

    /// Parses an absolute URL. Total: returns `None` exactly on the strings
    /// that [`spec_parse_url`] rejects.
    pub fn parse(input: &str) -> (r: Option<Url>)
        ensures
            match r {
                Some(u) => spec_parse_url(input@) == Some(u@) && u.wf(),
                None => spec_parse_url(input@) is None,
            },
    {
        let len = input.unicode_len();
        if !has_scheme(input) {
            return None;
        }
        let ci = find_char(input, ':', 0);
        let scheme = substring(input, 0, ci);
        let rest = substring(input, ci + 3, len);
        let restlen = len - (ci + 3);
        let hash = find_char(rest.as_str(), '#', 0);
        let fragment: Option<String> = if hash == restlen {
            None
        } else {
            Some(substring(rest.as_str(), hash + 1, restlen))
        };
        let bf = substring(rest.as_str(), 0, hash);
        let qpos = find_char(bf.as_str(), '?', 0);
        let query: Option<Vec<QueryPair>> = if qpos == hash {
            None
        } else {
            Some(crate::did::parse_query_string(substring(bf.as_str(), qpos + 1, hash).as_str()))
        };
        let bq = substring(bf.as_str(), 0, qpos);
        let bqlen = qpos;
        let slash = find_char(bq.as_str(), '/', 0);
        if slash < 1 {
            return None;
        }
        let authority = substring(bq.as_str(), 0, slash);
        let path: Vec<String> = if slash == bqlen {
            Vec::new()
        } else {
            split_string(substring(bq.as_str(), slash + 1, bqlen).as_str(), '/')
        };
        let u = Url { scheme, authority, path, query, fragment };
        proof {
            assert(u@ =~~= spec_parse_url(input@)->Some_0);
        }
        Some(u)
    }

    /// The scheme.
    pub fn scheme(&self) -> (r: &str)
        ensures
            r@ == self@.scheme,
    {
        self.scheme.as_str()
    }

    /// Whether the URL carries a query component.
    pub fn has_query(&self) -> (r: bool)
        ensures
            r == (self@.query is Some),
    {
        self.query.is_some()
    }

    /// The query component.
    pub fn query(&self) -> (r: &Option<Vec<QueryPair>>)
        ensures
            r.deep_view() == self@.query,
    {
        &self.query
    }

    /// The fragment component, if any.
    pub fn fragment(&self) -> (r: Option<&str>)
        ensures
            match r {
                Some(f) => self@.fragment == Some(f@),
                None => self@.fragment is None,
            },
    {
        match &self.fragment {
            Some(f) => Some(f.as_str()),
            None => None,
        }
    }

    /// A copy with the query and fragment components removed.
    pub fn without_query_fragment(&self) -> (r: Url)
        ensures
            r@ == (UrlView { query: None, fragment: None, ..self@ }),
    {
        let r = Url {
            scheme: self.scheme.clone(),
            authority: self.authority.clone(),
            path: clone_strings(&self.path),
            query: None,
            fragment: None,
        };
        proof {
            assert(r@ =~~= (UrlView { query: None, fragment: None, ..self@ }));
        }
        r
    }

    /// Replaces the fragment component.
    pub fn set_fragment(&mut self, f: Option<String>)
        ensures
            final(self)@ == (UrlView { fragment: f.deep_view(), ..old(self)@ }),
    {
        self.fragment = f;
        proof {
            assert(self@ =~~= (UrlView { fragment: self.fragment.deep_view(), ..old(self)@ }));
        }
    }

    /// Appends path segments; a trailing empty segment of the existing path
    /// is dropped first.
    pub fn append_path(&mut self, segments: &Vec<String>)
        ensures
            final(self)@ == (UrlView {
                path: (if old(self)@.path.len() > 0 && old(self)@.path.last() == Seq::<
                    char,
                >::empty() {
                    old(self)@.path.drop_last()
                } else {
                    old(self)@.path
                }) + segments.deep_view(),
                ..old(self)@
            }),
    {
        let ghost base = if self@.path.len() > 0 && self@.path.last() == Seq::<char>::empty() {
            self@.path.drop_last()
        } else {
            self@.path
        };
        if self.path.len() > 0 && self.path[self.path.len() - 1].as_str().is_empty() {
            proof {
                assert(self.path.deep_view().last() =~= Seq::<char>::empty());
            }
            self.path.pop();
            proof {
                assert(self.path.deep_view() =~= base);
            }
        }
        let mut i: usize = 0;
        while i < segments.len()
            invariant
                i <= segments.len(),
                self.path.deep_view() == base + segments.deep_view().take(i as int),
                self@.scheme == old(self)@.scheme,
                self@.authority == old(self)@.authority,
                self@.query == old(self)@.query,
                self@.fragment == old(self)@.fragment,
            decreases segments.len() - i,
        {
            let ghost old_dv = self.path.deep_view();
            self.path.push(segments[i].clone());
            proof {
                assert(self.path.deep_view() =~= old_dv.push(segments.deep_view()[i as int]));
                assert(old_dv.push(segments.deep_view()[i as int]) =~= base
                    + segments.deep_view().take(i as int + 1));
            }
            i += 1;
        }
        proof {
            assert(segments.deep_view().take(segments.deep_view().len() as int)
                =~= segments.deep_view());
            assert(self@ =~~= (UrlView { path: base + segments.deep_view(), ..old(self)@ }));
        }
    }

    /// Attaches query pairs, appended to those already present, if any.
    pub fn extend_query(&mut self, add: &Option<Vec<QueryPair>>)
        ensures
            final(self)@ == (UrlView {
                query: spec_extend_query(old(self)@.query, add.deep_view()),
                ..old(self)@
            }),
    {
        match add {
            None => {
                proof {
                    assert(self@ =~~= (UrlView {
                        query: spec_extend_query(self@.query, add.deep_view()),
                        ..self@
                    }));
                }
            },
            Some(pairs) => {
                let mut cur: Vec<QueryPair> = match self.query.take() {
                    Some(c) => c,
                    None => Vec::new(),
                };
                let ghost cur0 = cur.deep_view();
                proof {
                    assert(match old(self)@.query {
                        Some(c) => cur0 == c,
                        None => cur0 =~= Seq::<(Seq<char>, Seq<char>)>::empty(),
                    });
                }
                let mut i: usize = 0;
                while i < pairs.len()
                    invariant
                        i <= pairs.len(),
                        cur.deep_view() == cur0 + pairs.deep_view().take(i as int),
                    decreases pairs.len() - i,
                {
                    let ghost old_dv = cur.deep_view();
                    cur.push(pairs[i].clone());
                    proof {
                        assert(cur.deep_view() =~= old_dv.push(pairs.deep_view()[i as int]));
                        assert(old_dv.push(pairs.deep_view()[i as int]) =~= cur0
                            + pairs.deep_view().take(i as int + 1));
                    }
                    i += 1;
                }
                proof {
                    assert(pairs.deep_view().take(pairs.deep_view().len() as int)
                        =~= pairs.deep_view());
                }
                self.query = Some(cur);
                proof {
                    assert(self@ =~~= (UrlView {
                        query: spec_extend_query(old(self)@.query, add.deep_view()),
                        ..old(self)@
                    }));
                }
            },
        }
    }

    /// Resolves a reference against this URL, per [`spec_join_url`].
    pub fn join(&self, reference: &str) -> (r: Option<Url>)
        ensures
            match r {
                Some(u) => spec_join_url(self@, reference@) == Some(u@),
                None => spec_join_url(self@, reference@) is None,
            },
    {
        if has_scheme(reference) {
            return Url::parse(reference);
        }
        let len = reference.unicode_len();
        let hash = find_char(reference, '#', 0);
        let fragment: Option<String> = if hash == len {
            None
        } else {
            Some(substring(reference, hash + 1, len))
        };
        let bf = substring(reference, 0, hash);
        let qpos = find_char(bf.as_str(), '?', 0);
        let query: Option<Vec<QueryPair>> = if qpos == hash {
            None
        } else {
            Some(crate::did::parse_query_string(substring(bf.as_str(), qpos + 1, hash).as_str()))
        };
        let bq = substring(bf.as_str(), 0, qpos);
        let bqlen = qpos;
        if bqlen > 0 {
            let raw: Vec<String> = if bq.as_str().get_char(0) == '/' {
                split_string(substring(bq.as_str(), 1, bqlen).as_str(), '/')
            } else {
                let rel = split_string(bq.as_str(), '/');
                let mut m = clone_strings(&self.path);
                if m.len() > 0 {
                    m.pop();
                    proof {
                        assert(m.deep_view() =~= self@.path.drop_last());
                    }
                }
                let mut i: usize = 0;
                let ghost mbase = m.deep_view();
                while i < rel.len()
                    invariant
                        i <= rel.len(),
                        m.deep_view() == mbase + rel.deep_view().take(i as int),
                    decreases rel.len() - i,
                {
                    let ghost old_dv = m.deep_view();
                    m.push(rel[i].clone());
                    proof {
                        assert(m.deep_view() =~= old_dv.push(rel.deep_view()[i as int]));
                        assert(old_dv.push(rel.deep_view()[i as int]) =~= mbase
                            + rel.deep_view().take(i as int + 1));
                    }
                    i += 1;
                }
                proof {
                    assert(rel.deep_view().take(rel.deep_view().len() as int) =~= rel.deep_view());
                    assert(m.deep_view() =~= merge_paths(self@.path, split_on(bq@, '/')));
                }
                m
            };
            let path = remove_dots_vec(raw);
            let u = Url {
                scheme: self.scheme.clone(),
                authority: self.authority.clone(),
                path,
                query,
                fragment,
            };
            proof {
                assert(u@ =~~= spec_join_url(self@, reference@)->Some_0);
            }
            Some(u)
        } else {
            match query {
                Some(qv) => {
                    let u = Url {
                        scheme: self.scheme.clone(),
                        authority: self.authority.clone(),
                        path: clone_strings(&self.path),
                        query: Some(qv),
                        fragment,
                    };
                    proof {
                        assert(u@ =~~= spec_join_url(self@, reference@)->Some_0);
                    }
                    Some(u)
                },
                None => {
                    let u = Url {
                        scheme: self.scheme.clone(),
                        authority: self.authority.clone(),
                        path: clone_strings(&self.path),
                        query: clone_query(&self.query),
                        fragment,
                    };
                    proof {
                        assert(u@ =~~= spec_join_url(self@, reference@)->Some_0);
                    }
                    Some(u)
                },
            }
        }
    }
}

impl Clone for Url {
    /// Cloning yields a URL with the same view.
    fn clone(&self) -> (r: Self)
        ensures
            r@ == self@,
            r.wf() == self.wf(),
    {
        let r = Url {
            scheme: self.scheme.clone(),
            authority: self.authority.clone(),
            path: clone_strings(&self.path),
            query: clone_query(&self.query),
            fragment: match &self.fragment {
                Some(f) => Some(f.clone()),
                None => None,
            },
        };
        proof {
            assert(r@ =~~= self@);
        }
        r
    }
}

} // verus!
