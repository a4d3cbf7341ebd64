//! The URL parser: a raw path-and-query string becomes path segments, a
//! query map and an optional fragment. Parsing never fails; malformed
//! input degrades to partial or empty results.

use vstd::prelude::*;
use crate::headers::{map_of_pairs, Headers};
use crate::text::{find_char, lemma_find_ensures, spec_find, spec_split, split_str, str_eq};

verus! {

/// The part before the first `?`: the path.
pub open spec fn spec_url_path_part(s: Seq<char>) -> Seq<char> {
    match spec_find(s, '?') {
        None => s,
        Some(i) => s.take(i),
    }
}

/// The part after the first `?`: query string and fragment together.
pub open spec fn spec_url_query_all(s: Seq<char>) -> Seq<char> {
    match spec_find(s, '?') {
        None => Seq::empty(),
        Some(i) => s.skip(i + 1),
    }
}

/// The query string: what remains of the query part before its `#`.
pub open spec fn spec_url_query_str(s: Seq<char>) -> Seq<char> {
    let q = spec_url_query_all(s);
    match spec_find(q, '#') {
        None => q,
        Some(i) => q.take(i),
    }
}

/// The fragment: what follows a `#` in the query part, if one is there.
pub open spec fn spec_url_fragment(s: Seq<char>) -> Option<Seq<char>> {
    let q = spec_url_query_all(s);
    match spec_find(q, '#') {
        None => None,
        Some(i) => Some(q.skip(i + 1)),
    }
}

/// The path segments: the path part split on `/`, empty segments
/// dropped; so `/` parses to no segment at all.
pub open spec fn spec_url_path(s: Seq<char>) -> Seq<Seq<char>> {
    spec_split(spec_url_path_part(s), '/').filter(|x: Seq<char>| x.len() != 0)
}

/// The key/value pair a query segment denotes: split at the first `=`;
/// a missing `=` yields an empty value.
pub open spec fn spec_pair_of(s: Seq<char>) -> (Seq<char>, Seq<char>) {
    match spec_find(s, '=') {
        None => (s, Seq::empty()),
        Some(i) => (s.take(i), s.skip(i + 1)),
    }
}

/// The pairs a sequence of query segments denotes, in order; segments
/// with an empty key are dropped.
pub open spec fn spec_pairs_of_segments(segs: Seq<Seq<char>>) -> Seq<(Seq<char>, Seq<char>)>
    decreases segs.len(),
{
    if segs.len() == 0 {
        Seq::empty()
    } else {
        let rest = spec_pairs_of_segments(segs.drop_last());
        let p = spec_pair_of(segs.last());
        if p.0.len() == 0 {
            rest
        } else {
            rest.push(p)
        }
    }
}

/// The query map: the query string split on `&`, each segment split at
/// its first `=`, later values of a key overwriting earlier ones.
pub open spec fn spec_url_query_map(s: Seq<char>) -> Map<Seq<char>, Seq<char>> {
    map_of_pairs(spec_pairs_of_segments(spec_split(spec_url_query_str(s), '&')))
}


/// A parsed URL.
#[derive(Debug)]
pub struct Url {
    /// The path, divided at `/`, empty segments dropped.
    pub path: Vec<String>,
    /// Search parameters, given as `?key=value&...` in the URL.
    pub search_params: Headers,
    /// The fragment, given after `#` in the query part of the URL.
    pub fragment: Option<String>,
}

impl Url {
    /// Builds a URL directly, without a fragment.
    /// Use `Url::from` to parse a string.
    pub fn new(path: Vec<String>, search_params: Headers) -> (r: Url)
        ensures
            r.path == path,
            r.search_params == search_params,
            r.fragment is None,
    {
        Url { path, search_params, fragment: None }
    }

    /// Returns the `i`th element of the path.
    /// If the element does not exist, returns `None`.
    pub fn at(&self, i: usize) -> (r: Option<&str>)
        ensures
            match r {
                Some(s) => i < self.path@.len() && s@ == self.path@[i as int]@,
                None => i >= self.path@.len(),
            },
    {
        if i < self.path.len() {
            Some(self.path[i].as_str())
        } else {
            None
        }
    }

    /// Looks a search parameter up.
    pub fn search_param(&self, key: &str) -> (r: Option<&str>)
        ensures
            match r {
                Some(v) => self.search_params@.dom().contains(key@) && v@ == self.search_params@[key@],
                None => !self.search_params@.dom().contains(key@),
            },
    {
        match self.search_params.get(key) {
            Some(v) => Some(v.as_str()),
            None => None,
        }
    }

    /// Parses a raw path-and-query string. Parsing always succeeds:
    /// there is no such thing as an unparsable URL in this model.
    pub fn from(value: &str) -> (r: Url)
        ensures
            r.path@.map_values(|s: String| s@) == spec_url_path(value@),
            r.search_params@ == spec_url_query_map(value@),
            match spec_url_fragment(value@) {
                None => r.fragment is None,
                Some(f) => r.fragment matches Some(g) && g@ == f,
            },
    {
        proof {
            lemma_find_ensures(value@, '?');
        }
        let n = value.unicode_len();
        let (path_part, query_all): (&str, &str) = match find_char(value, '?') {
            None => (value, ""),
            Some(i) => (value.substring_char(0, i), value.substring_char(i + 1, n)),
        };
        proof {
            reveal_strlit("");
            assert(path_part@ == spec_url_path_part(value@));
            assert(query_all@ == spec_url_query_all(value@));
            lemma_find_ensures(query_all@, '#');
        }
        let qn = query_all.unicode_len();
        let (query_str, fragment): (&str, Option<String>) = match find_char(query_all, '#') {
            None => (query_all, None),
            Some(i) => (
                query_all.substring_char(0, i),
                Some(query_all.substring_char(i + 1, qn).to_owned()),
            ),
        };
        proof {
            assert(query_str@ == spec_url_query_str(value@));
        }
        let ghost pview = |x: String| x@;
        let ghost f = |x: Seq<char>| x.len() != 0;
        let segs = split_str(path_part, '/');
        let ghost mseq = segs@.map_values(pview);
        proof {
            assert(forall|k: int| 0 <= k < mseq.len() ==> mseq[k] == #[trigger] segs@[k]@);
        }
        let mut path: Vec<String> = Vec::new();
        let m = segs.len();
        let mut i: usize = 0;
        while i < m
            invariant
                pview == (|x: String| x@),
                f == (|x: Seq<char>| x.len() != 0),
                m == segs@.len(),
                mseq == segs@.map_values(pview),
                mseq.len() == m,
                forall|k: int| 0 <= k < m ==> mseq[k] == #[trigger] segs@[k]@,
                0 <= i <= m,
                path@.map_values(pview) =~= mseq.take(i as int).filter(f),
            decreases m - i,
        {
            let ghost before = path@.map_values(pview);
            let s = &segs[i];
            if !s.as_str().is_empty() {
                path.push(s.clone());
                proof {
                    assert(path@.map_values(pview) =~= before.push(mseq[i as int]));
                }
            }
            proof {
                let t1 = mseq.take(i + 1);
                assert(t1.drop_last() =~= mseq.take(i as int));
                assert(t1 =~= t1.drop_last().push(mseq[i as int]));
                t1.drop_last().lemma_filter_push(mseq[i as int], f);
                assert(path@.map_values(pview) =~= t1.filter(f));
            }
            i += 1;
        }
        proof {
            assert(mseq.take(m as int) =~= mseq);
            assert(path@.map_values(pview) =~= spec_url_path(value@));
        }
        let qsegs = split_str(query_str, '&');
        let ghost qseq = qsegs@.map_values(pview);
        proof {
            assert(forall|k: int| 0 <= k < qseq.len() ==> qseq[k] == #[trigger] qsegs@[k]@);
        }
        let mut search_params = Headers::new();
        let qm = qsegs.len();
        let mut j: usize = 0;
        while j < qm
            invariant
                pview == (|x: String| x@),
                qm == qsegs@.len(),
                qseq == qsegs@.map_values(pview),
                qseq.len() == qm,
                forall|k: int| 0 <= k < qm ==> qseq[k] == #[trigger] qsegs@[k]@,
                0 <= j <= qm,
                search_params@ == map_of_pairs(spec_pairs_of_segments(qseq.take(j as int))),
            decreases qm - j,
        {
            let q = &qsegs[j];
            let ghost qv = q@;
            proof {
                lemma_find_ensures(qv, '=');
                assert(qseq.take(j + 1).drop_last() =~= qseq.take(j as int));
                assert(qseq.take(j + 1).last() == qv);
            }
            let ql = q.as_str().unicode_len();
            let (key, val): (&str, &str) = match find_char(q.as_str(), '=') {
                None => (q.as_str(), ""),
                Some(p) => (q.as_str().substring_char(0, p), q.as_str().substring_char(p + 1, ql)),
            };
            proof {
                reveal_strlit("");
                assert((key@, val@) == spec_pair_of(qv));
            }
            proof {
                let ps0 = spec_pairs_of_segments(qseq.take(j as int));
                assert(qseq.take(j + 1).drop_last() =~= qseq.take(j as int));
                if key@.len() != 0 {
                    assert(ps0.push((key@, val@)).drop_last() =~= ps0);
                    assert(spec_pairs_of_segments(qseq.take(j + 1)) == ps0.push((key@, val@)));
                } else {
                    assert(spec_pairs_of_segments(qseq.take(j + 1)) == ps0);
                }
            }
            if !key.is_empty() {
                search_params.insert(key.to_owned(), val.to_owned());
            }
            j += 1;
        }
        proof {
            assert(qseq.take(qm as int) =~= qseq);
            assert(search_params@ == spec_url_query_map(value@));
        }
        Url { path, search_params, fragment }
    }
}


/// The pieces of `parts` joined with `sep` between them.
pub open spec fn spec_join(parts: Seq<Seq<char>>, sep: char) -> Seq<char>
    decreases parts.len(),
{
    if parts.len() == 0 {
        Seq::empty()
    } else if parts.len() == 1 {
        parts[0]
    } else {
        spec_join(parts.drop_last(), sep).push(sep) + parts.last()
    }
}

/// One query pair as text: `key=value`.
pub open spec fn spec_pair_chars(p: (Seq<char>, Seq<char>)) -> Seq<char> {
    p.0 + "="@ + p.1
}

/// The textual form of a URL: the path joined with `/`, a `?`, and the
/// query pairs joined with `&`.
pub open spec fn spec_url_chars(u: Url) -> Seq<char> {
    spec_join(u.path@.map_values(|s: String| s@), '/') + "?"@ + spec_join(
        u.search_params.pairs().map_values(|p: (Seq<char>, Seq<char>)| spec_pair_chars(p)),
        '&',
    )
}

impl Url {
    /// The URL as text: path, `?`, and query parameters.
    pub fn to_string(&self) -> (r: String)
        ensures
            r@ == spec_url_chars(*self),
    {
        proof {
            reveal_strlit("/");
            reveal_strlit("&");
        }
        let ghost pview = |s: String| s@;
        let mut out = String::new();
        let n = self.path.len();
        let mut i: usize = 0;
        while i < n
            invariant
                pview == (|s: String| s@),
                n == self.path@.len(),
                0 <= i <= n,
                out@ == spec_join(self.path@.map_values(pview).take(i as int), '/'),
                "/"@ == seq!['/'],
            decreases n - i,
        {
            if i > 0 {
                out.append("/");
            }
            out.append(self.path[i].as_str());
            proof {
                let parts = self.path@.map_values(pview);
                assert(parts.take(i + 1).drop_last() =~= parts.take(i as int));
                assert(parts.take(i + 1).last() == parts[i as int]);
                if i == 0 {
                    assert(parts.take(1)[0] == parts[0]);
                }
            }
            i += 1;
        }
        proof {
            assert(self.path@.map_values(pview).take(n as int) =~= self.path@.map_values(pview));
        }
        out.append("?");
        let ghost prefix = out@;
        let ghost fpair = |p: (Seq<char>, Seq<char>)| spec_pair_chars(p);
        let m = self.search_params.num_entries();
        let mut j: usize = 0;
        while j < m
            invariant
                fpair == (|p: (Seq<char>, Seq<char>)| spec_pair_chars(p)),
                m == self.search_params.pairs().len(),
                0 <= j <= m,
                out@ == prefix + spec_join(
                    self.search_params.pairs().map_values(fpair).take(j as int),
                    '&',
                ),
                "&"@ == seq!['&'],
            decreases m - j,
        {
            if j > 0 {
                out.append("&");
            }
            let (k, v) = self.search_params.entry_at(j);
            out.append(k.as_str());
            out.append("=");
            out.append(v.as_str());
            proof {
                let parts = self.search_params.pairs().map_values(fpair);
                assert(parts.take(j + 1).drop_last() =~= parts.take(j as int));
                assert(parts.take(j + 1).last() == parts[j as int]);
                assert(parts[j as int] == spec_pair_chars(self.search_params.pairs()[j as int]));
                if j == 0 {
                    assert(parts.take(1)[0] == parts[0]);
                }
            }
            j += 1;
        }
        proof {
            let parts = self.search_params.pairs().map_values(fpair);
            assert(parts.take(m as int) =~= parts);
        }
        out
    }
}

impl PartialEq for Url {
    fn eq(&self, other: &Url) -> (r: bool) {
        let n = self.path.len();
        if n != other.path.len() {
            proof {
                assert(self.path@.map_values(|s: String| s@).len() == n);
            }
            return false;
        }
        let mut i: usize = 0;
        while i < n
            invariant
                n == self.path@.len() == other.path@.len(),
                0 <= i <= n,
                forall|j: int| 0 <= j < i ==> self.path@[j]@ == other.path@[j]@,
            decreases n - i,
        {
            if !str_eq(self.path[i].as_str(), other.path[i].as_str()) {
                proof {
                    assert(self.path@.map_values(|s: String| s@)[i as int] != other.path@.map_values(
                        |s: String| s@,
                    )[i as int]);
                }
                return false;
            }
            i += 1;
        }
        proof {
            assert(self.path@.map_values(|s: String| s@) =~= other.path@.map_values(
                |s: String| s@,
            ));
        }
        let frag_eq = match (&self.fragment, &other.fragment) {
            (None, None) => true,
            (Some(a), Some(b)) => str_eq(a.as_str(), b.as_str()),
            _ => false,
        };
        frag_eq && self.search_params == other.search_params
    }
}

impl vstd::std_specs::cmp::PartialEqSpecImpl for Url {
    open spec fn obeys_eq_spec() -> bool {
        true
    }

    open spec fn eq_spec(&self, other: &Url) -> bool {
        &&& self.path@.map_values(|s: String| s@) == other.path@.map_values(|s: String| s@)
        &&& self.search_params@ == other.search_params@
        &&& match (self.fragment, other.fragment) {
            (None, None) => true,
            (Some(a), Some(b)) => a@ == b@,
            _ => false,
        }
    }
}

} // verus!
