//! The request parser: raw bytes read from a socket become a structured
//! request, or a parse failure where the request line or a header line is
//! malformed.

use vstd::prelude::*;
use vstd::slice::slice_to_vec;
use vstd::utf8::{decode_utf8, valid_utf8};
use crate::addr::{format_addr, spec_format_addr, PeerAddr};
use crate::headers::Headers;
use crate::http::{spec_method_of, spec_method_token, Method};
use crate::text::{
    bytes_eq, find_byte, lemma_find_ensures, lemma_find_is_first, lossy_decode, lossy_string,
    spec_find, spec_trim, str_eq, string_from_utf8, trim_ascii,
};
use crate::url::{spec_url_fragment, spec_url_path, spec_url_query_map, Url};

verus! {

/// Whether line-feed/carriage-return pairs terminate the header block
/// at position `j`.
pub open spec fn spec_crlf2_at(s: Seq<u8>, j: int) -> bool {
    &&& 0 <= j
    &&& j + 4 <= s.len()
    &&& s[j] == 13
    &&& s[j + 1] == 10
    &&& s[j + 2] == 13
    &&& s[j + 3] == 10
}

/// The first position of the four-byte header terminator, if any.
pub open spec fn spec_find_crlf2(s: Seq<u8>) -> Option<int>
    decreases s.len(),
{
    if s.len() < 4 {
        None
    } else if spec_crlf2_at(s, 0) {
        Some(0)
    } else {
        match spec_find_crlf2(s.drop_first()) {
            Some(i) => Some(i + 1),
            None => None,
        }
    }
}

proof fn lemma_find_crlf2_is_first(s: Seq<u8>, i: int)
    requires
        spec_crlf2_at(s, i),
        forall|j: int| 0 <= j < i ==> !spec_crlf2_at(s, j),
    ensures
        spec_find_crlf2(s) == Some(i),
    decreases i,
{
    if i == 0 {
    } else {
        let t = s.drop_first();
        assert(spec_crlf2_at(t, i - 1));
        assert forall|j: int| 0 <= j < i - 1 implies !spec_crlf2_at(t, j) by {
            assert(!spec_crlf2_at(s, j + 1));
        }
        lemma_find_crlf2_is_first(t, i - 1);
        assert(!spec_crlf2_at(s, 0));
    }
}

proof fn lemma_find_crlf2_none(s: Seq<u8>)
    requires
        forall|j: int| 0 <= j ==> !spec_crlf2_at(s, j),
    ensures
        spec_find_crlf2(s) == None::<int>,
    decreases s.len(),
{
    if s.len() >= 4 {
        let t = s.drop_first();
        assert forall|j: int| 0 <= j implies !spec_crlf2_at(t, j) by {
            assert(!spec_crlf2_at(s, j + 1));
        }
        lemma_find_crlf2_none(t);
    }
}

/// Finds the first header-terminator position.
fn find_crlf2(s: &[u8]) -> (r: Option<usize>)
    ensures
        match r {
            Some(i) => spec_find_crlf2(s@) == Some(i as int) && spec_crlf2_at(s@, i as int),
            None => spec_find_crlf2(s@) == None::<int>,
        },
{
    let n = s.len();
    if n < 4 {
        proof {
            assert forall|j: int| 0 <= j implies !spec_crlf2_at(s@, j) by {}
            lemma_find_crlf2_none(s@);
        }
        return None;
    }
    let mut i: usize = 0;
    while i <= n - 4
        invariant
            n == s@.len(),
            4 <= n,
            0 <= i <= n,
            forall|j: int| 0 <= j < i ==> !spec_crlf2_at(s@, j),
        decreases n - i,
    {
        if s[i] == 13 && s[i + 1] == 10 && s[i + 2] == 13 && s[i + 3] == 10 {
            proof {
                lemma_find_crlf2_is_first(s@, i as int);
            }
            return Some(i);
        }
        proof {
            assert(!spec_crlf2_at(s@, i as int));
        }
        i += 1;
    }
    proof {
        assert forall|j: int| 0 <= j implies !spec_crlf2_at(s@, j) by {
            if j < i {
            } else {
                assert(j + 4 > s@.len());
            }
        }
        lemma_find_crlf2_none(s@);
    }
    None
}

/// The body: everything after the first header terminator, or empty
/// where no terminator stands in the bytes read.
pub open spec fn spec_body(bytes: Seq<u8>) -> Seq<u8> {
    match spec_find_crlf2(bytes) {
        None => Seq::empty(),
        Some(p) => bytes.skip(p + 4),
    }
}

/// Whether a header line ends the header block: an empty line, with or
/// without its carriage return.
pub open spec fn spec_is_terminator(line: Seq<u8>) -> bool {
    line.len() == 0 || line == seq![13u8]
}

/// The key/value pair a header line denotes: split at the first `:`,
/// both sides trimmed of ASCII whitespace and decoded lossily. A line
/// without `:` is malformed.
pub open spec fn spec_header_pair(line: Seq<u8>) -> Option<(Seq<char>, Seq<char>)> {
    match spec_find(line, 58u8) {
        None => None,
        Some(p) => Some(
            (lossy_decode(spec_trim(line.take(p))), lossy_decode(spec_trim(line.skip(p + 1)))),
        ),
    }
}

/// The header pairs of the lines in `s`, in order, up to the first
/// terminator line; `None` where a line before the terminator is
/// malformed.
pub open spec fn spec_parse_headers(s: Seq<u8>) -> Option<Seq<(Seq<char>, Seq<char>)>>
    decreases s.len(),
{
    if s.len() == 0 {
        Some(Seq::empty())
    } else {
        match spec_find(s, 10u8) {
            Some(i) => if 0 <= i < s.len() {
                let line = s.take(i);
                if spec_is_terminator(line) {
                    Some(Seq::empty())
                } else {
                    match spec_header_pair(line) {
                        None => None,
                        Some(p) => match spec_parse_headers(s.skip(i + 1)) {
                            None => None,
                            Some(t) => Some(seq![p] + t),
                        },
                    }
                }
            } else {
                Some(Seq::empty())
            },
            None => if spec_is_terminator(s) {
                Some(Seq::empty())
            } else {
                match spec_header_pair(s) {
                    None => None,
                    Some(p) => Some(seq![p]),
                }
            },
        }
    }
}

/// The header pairs of a whole request: the lines after the first
/// line feed.
pub open spec fn spec_request_header_pairs(bytes: Seq<u8>) -> Option<Seq<(Seq<char>, Seq<char>)>> {
    match spec_find(bytes, 10u8) {
        None => Some(Seq::empty()),
        Some(l) => spec_parse_headers(bytes.skip(l + 1)),
    }
}

/// Inserting a sequence of pairs into a map, first to last.
pub open spec fn spec_insert_all(
    m: Map<Seq<char>, Seq<char>>,
    ps: Seq<(Seq<char>, Seq<char>)>,
) -> Map<Seq<char>, Seq<char>>
    decreases ps.len(),
{
    if ps.len() == 0 {
        m
    } else {
        spec_insert_all(m.insert(ps[0].0, ps[0].1), ps.drop_first())
    }
}

/// The position of the first space of the request line, if any.
pub open spec fn spec_sp1(bytes: Seq<u8>) -> Option<int> {
    spec_find(bytes, 32u8)
}

/// The position, after the first space, of the second space, if any.
pub open spec fn spec_sp2(bytes: Seq<u8>) -> Option<int> {
    match spec_sp1(bytes) {
        None => None,
        Some(i) => spec_find(bytes.skip(i + 1), 32u8),
    }
}

/// The method token: the bytes before the first space.
pub open spec fn spec_method_tok(bytes: Seq<u8>) -> Seq<u8> {
    bytes.take(spec_sp1(bytes).unwrap())
}

/// The URL token: the bytes between the first and the second space.
pub open spec fn spec_url_tok(bytes: Seq<u8>) -> Seq<u8> {
    bytes.skip(spec_sp1(bytes).unwrap() + 1).take(spec_sp2(bytes).unwrap())
}

/// Whether the bytes parse as a request: the request line has its three
/// tokens, the URL token is valid UTF-8, and every header line before
/// the terminator has its `:` separator.
pub open spec fn spec_request_ok(bytes: Seq<u8>) -> bool {
    &&& spec_sp1(bytes) is Some
    &&& spec_sp2(bytes) is Some
    &&& valid_utf8(spec_url_tok(bytes))
    &&& spec_request_header_pairs(bytes) is Some
}

/// The header map of a request: its header pairs inserted in order,
/// a repeated key overwriting the earlier value.
pub open spec fn spec_request_headers(bytes: Seq<u8>) -> Map<Seq<char>, Seq<char>> {
    spec_insert_all(Map::empty(), spec_request_header_pairs(bytes).unwrap())
}

/// Whether `req` is exactly the request that `bytes`, read from `ip`,
/// parse to.
pub open spec fn spec_parsed(req: Request, bytes: Seq<u8>, ip: PeerAddr) -> bool {
    &&& req.method == spec_method_of(spec_method_tok(bytes))
    &&& req.url@ == decode_utf8(spec_url_tok(bytes))
    &&& req.body@ == spec_body(bytes)
    &&& req.headers@ == spec_request_headers(bytes)
    &&& req.ip == ip
}

/// The characterization of `spec_find_crlf2`: what it returns is the
/// first terminator position, and `None` means there is none.
proof fn lemma_find_crlf2_ensures(s: Seq<u8>)
    ensures
        match spec_find_crlf2(s) {
            Some(i) => spec_crlf2_at(s, i) && forall|j: int| 0 <= j < i ==> !spec_crlf2_at(s, j),
            None => forall|j: int| !spec_crlf2_at(s, j),
        },
    decreases s.len(),
{
    if s.len() < 4 {
        assert(forall|j: int| !spec_crlf2_at(s, j));
    } else if spec_crlf2_at(s, 0) {
    } else {
        let t = s.drop_first();
        lemma_find_crlf2_ensures(t);
        assert(forall|j: int| 1 <= j ==> (#[trigger] spec_crlf2_at(s, j) <==> spec_crlf2_at(
            t,
            j - 1,
        ))) by {
            assert(forall|j: int| 0 <= j < t.len() ==> t[j] == s[j + 1]);
        }
        match spec_find_crlf2(t) {
            Some(i) => {
                assert(spec_crlf2_at(s, i + 1));
                assert(forall|j: int| 0 <= j < i + 1 ==> !spec_crlf2_at(s, j));
            },
            None => {
                assert(forall|j: int| !spec_crlf2_at(s, j));
            },
        }
    }
}

/// Whether a request-line token can be rendered and parsed back: free of
/// spaces and line breaks.
pub open spec fn spec_token_wf(t: Seq<u8>) -> bool {
    forall|i: int| 0 <= i < t.len() ==> t[i] != 32 && t[i] != 10 && t[i] != 13
}

/// Whether a header can be rendered and parsed back: the key free of
/// line breaks and of the separator, the value free of line breaks, and
/// both already trimmed.
pub open spec fn spec_header_wf(k: Seq<u8>, v: Seq<u8>) -> bool {
    &&& forall|i: int| 0 <= i < k.len() ==> k[i] != 10 && k[i] != 13 && k[i] != 58
    &&& forall|i: int| 0 <= i < v.len() ==> v[i] != 10 && v[i] != 13
    &&& spec_trim(k) == k
    &&& spec_trim(v) == v
}

/// Whether every header of `hs` can be rendered and parsed back.
pub open spec fn spec_headers_wf(hs: Seq<(Seq<u8>, Seq<u8>)>) -> bool {
    forall|i: int| 0 <= i < hs.len() ==> spec_header_wf(#[trigger] hs[i].0, hs[i].1)
}

/// One header line on the wire: `key: value` and a line break.
pub open spec fn spec_render_header_line(k: Seq<u8>, v: Seq<u8>) -> Seq<u8> {
    k + seq![58u8, 32u8] + v + seq![13u8, 10u8]
}

/// The rendered header block: one line per header, in order.
pub open spec fn spec_render_header_lines(hs: Seq<(Seq<u8>, Seq<u8>)>) -> Seq<u8>
    decreases hs.len(),
{
    if hs.len() == 0 {
        Seq::empty()
    } else {
        spec_render_header_line(hs[0].0, hs[0].1) + spec_render_header_lines(hs.drop_first())
    }
}

/// A whole request on the wire: the request line, the header block, the
/// blank line, and the raw body.
pub open spec fn spec_render_request(
    method_tok: Seq<u8>,
    url: Seq<u8>,
    version_tok: Seq<u8>,
    hs: Seq<(Seq<u8>, Seq<u8>)>,
    body: Seq<u8>,
) -> Seq<u8> {
    method_tok + seq![32u8] + url + seq![32u8] + version_tok + seq![13u8, 10u8]
        + spec_render_header_lines(hs) + seq![13u8, 10u8] + body
}

/// The header pairs as the parser yields them: each side decoded.
pub open spec fn spec_decoded_pairs(hs: Seq<(Seq<u8>, Seq<u8>)>) -> Seq<(Seq<char>, Seq<char>)> {
    hs.map_values(|p: (Seq<u8>, Seq<u8>)| (lossy_decode(p.0), lossy_decode(p.1)))
}

/// Trimming a rendered header value gives the value back: the leading
/// separator space and the trailing carriage return go, nothing else.
proof fn lemma_trim_rendered_value(v: Seq<u8>)
    requires
        spec_trim(v) == v,
    ensures
        spec_trim(seq![32u8] + v + seq![13u8]) == v,
{
    let w = seq![32u8] + v + seq![13u8];
    if v.len() == 0 {
        crate::text::lemma_trim_front_skip(w, 2);
        assert(w.skip(2) =~= Seq::<u8>::empty());
    } else {
        crate::text::lemma_trimmed_edges(v);
        assert(w[1] == v[0]);
        crate::text::lemma_trim_front_skip(w, 1);
        let u = w.skip(1);
        assert(u =~= v + seq![13u8]);
        assert(u[v.len() - 1] == v[v.len() - 1]);
        crate::text::lemma_trim_back_take(u, v.len() as int);
        assert(u.take(v.len() as int) =~= v);
    }
}

/// The header block of a rendered request parses back to exactly the
/// headers that were rendered, each side decoded.
proof fn lemma_parse_rendered_headers(hs: Seq<(Seq<u8>, Seq<u8>)>, body: Seq<u8>)
    requires
        spec_headers_wf(hs),
    ensures
        spec_parse_headers(spec_render_header_lines(hs) + seq![13u8, 10u8] + body) == Some(
            spec_decoded_pairs(hs),
        ),
    decreases hs.len(),
{
    let s = spec_render_header_lines(hs) + seq![13u8, 10u8] + body;
    if hs.len() == 0 {
        assert(s =~= seq![13u8, 10u8] + body);
        assert(s[0] == 13 && s[1] == 10);
        lemma_find_is_first(s, 10u8, 1);
        assert(s.take(1) =~= seq![13u8]);
        assert(spec_is_terminator(s.take(1)));
        assert(spec_decoded_pairs(hs) =~= Seq::<(Seq<char>, Seq<char>)>::empty());
    } else {
        let k = hs[0].0;
        let v = hs[0].1;
        let line0 = spec_render_header_line(k, v);
        let rest = spec_render_header_lines(hs.drop_first()) + seq![13u8, 10u8] + body;
        assert(s =~= line0 + rest);
        let ll = line0.len() as int;
        assert(ll == k.len() + v.len() + 4);
        // The bytes of the first line, position by position.
        assert(forall|i: int| 0 <= i < k.len() ==> line0[i] == k[i]);
        assert(line0[k.len() as int] == 58);
        assert(line0[k.len() as int + 1] == 32);
        assert(forall|i: int| 0 <= i < v.len() ==> line0[k.len() as int + 2 + i] == v[i]);
        assert(line0[ll - 2] == 13);
        assert(line0[ll - 1] == 10);
        // The first line feed of `s` ends the first line.
        assert(forall|j: int| 0 <= j < ll - 1 ==> s[j] == line0[j] && line0[j] != 10);
        assert(s[ll - 1] == 10);
        lemma_find_is_first(s, 10u8, ll - 1);
        let line = s.take(ll - 1);
        assert(line =~= k + seq![58u8, 32u8] + v + seq![13u8]);
        assert(line.len() > 1 && line[0] != 10);
        assert(!spec_is_terminator(line)) by {
            assert(line.len() != 0 && line.len() != 1);
        }
        // The first separator of the line ends the key.
        assert(forall|j: int| 0 <= j < k.len() ==> line[j] == k[j] && k[j] != 58);
        assert(line[k.len() as int] == 58);
        lemma_find_is_first(line, 58u8, k.len() as int);
        assert(line.take(k.len() as int) =~= k);
        assert(line.skip(k.len() as int + 1) =~= seq![32u8] + v + seq![13u8]);
        lemma_trim_rendered_value(v);
        assert(spec_header_pair(line) == Some((lossy_decode(k), lossy_decode(v))));
        // The remaining lines parse by induction.
        assert(s.skip(ll) =~= rest);
        lemma_parse_rendered_headers(hs.drop_first(), body);
        let p0 = (lossy_decode(k), lossy_decode(v));
        assert(spec_parse_headers(s) == Some(seq![p0] + spec_decoded_pairs(hs.drop_first())));
        assert(seq![p0] + spec_decoded_pairs(hs.drop_first()) =~= spec_decoded_pairs(hs));
    }
}

/// The first header terminator of a rendered tail stands exactly at the
/// end of the header block.
proof fn lemma_rendered_crlf2(hs: Seq<(Seq<u8>, Seq<u8>)>, body: Seq<u8>)
    requires
        spec_headers_wf(hs),
    ensures
        spec_find_crlf2(seq![13u8, 10u8] + spec_render_header_lines(hs) + seq![13u8, 10u8] + body)
            == Some(spec_render_header_lines(hs).len() as int),
    decreases hs.len(),
{
    let hb = spec_render_header_lines(hs);
    let s = seq![13u8, 10u8] + hb + seq![13u8, 10u8] + body;
    if hs.len() == 0 {
        assert(s =~= seq![13u8, 10u8, 13u8, 10u8] + body);
        assert(spec_crlf2_at(s, 0));
        lemma_find_crlf2_is_first(s, 0);
    } else {
        let k = hs[0].0;
        let v = hs[0].1;
        let line0 = spec_render_header_line(k, v);
        let ll = line0.len() as int;
        let hbr = spec_render_header_lines(hs.drop_first());
        assert(hb =~= line0 + hbr);
        let t = seq![13u8, 10u8] + hbr + seq![13u8, 10u8] + body;
        lemma_rendered_crlf2(hs.drop_first(), body);
        lemma_find_crlf2_ensures(t);
        // Dropping the first line leaves the same rendered tail, because
        // the line ends with the very separator the tail starts with.
        assert(s.skip(ll) =~= t);
        assert(forall|j: int| ll <= j ==> (#[trigger] spec_crlf2_at(s, j) <==> spec_crlf2_at(
            t,
            j - ll,
        ))) by {
            assert(forall|j: int| 0 <= j < t.len() ==> t[j] == s[ll + j]);
        }
        assert(spec_crlf2_at(s, ll + hbr.len())) by {
            assert(spec_crlf2_at(t, hbr.len() as int));
        }
        // No terminator starts inside the first line: its only carriage
        // return is followed by the line feed and the next line's first
        // byte, which is no carriage return.
        assert(forall|i: int| 0 <= i < ll - 2 ==> s[2 + i] == line0[i] && line0[i] != 13);
        assert(s[2 + ll - 2] == 13 && s[2 + ll - 1] == 10);
        assert(s[0] == 13 && s[1] == 10);
        assert(forall|j: int| 0 <= j < ll ==> !spec_crlf2_at(s, j)) by {
            assert forall|j: int| 0 <= j < ll implies !spec_crlf2_at(s, j) by {
                if j == 0 {
                    // the window would need a carriage return right after
                    // the leading separator
                    assert(s[2] == line0[0]);
                    assert(line0[0] != 13) by {
                        if k.len() > 0 {
                            assert(line0[0] == k[0]);
                        } else {
                            assert(line0[0] == 58);
                        }
                    }
                } else if j == 1 {
                    assert(s[1] == 10);
                } else if j < ll {
                    assert(s[j] == line0[j - 2]);
                    if j - 2 < ll - 2 {
                        assert(line0[j - 2] != 13);
                    } else {
                        // j == ll - 1 or j == ll: the line's own separator;
                        // only j == ll starts a window, handled below
                        assert(j == ll - 1 || j == ll);
                        if j == ll - 1 {
                            assert(s[j] == line0[ll - 3]);
                            assert(line0[ll - 3] != 13) by {
                                if v.len() > 0 {
                                    assert(line0[ll - 3] == v[v.len() - 1]);
                                } else {
                                    assert(line0[ll - 3] == 32);
                                }
                            }
                        }
                    }
                }
            }
        }
        assert(forall|j: int| ll <= j < ll + hbr.len() ==> !spec_crlf2_at(s, j)) by {
            assert(forall|j: int| 0 <= j < hbr.len() ==> !#[trigger] spec_crlf2_at(t, j));
        }
        lemma_find_crlf2_is_first(s, ll + hbr.len());
        assert(ll + hbr.len() == hb.len());
    }
}


/// The request parser round-trips a rendered request: rendering a
/// request line, a header block and a body to wire bytes and parsing the
/// bytes back yields exactly the method token, URL, headers and body
/// that were rendered. The tokens must be free of spaces and line
/// breaks, and the headers of line breaks, key separators and edge
/// whitespace, as on the wire they always are.
pub proof fn lemma_parse_round_trip(
    method_tok: Seq<u8>,
    url: Seq<u8>,
    version_tok: Seq<u8>,
    hs: Seq<(Seq<u8>, Seq<u8>)>,
    body: Seq<u8>,
)
    requires
        spec_token_wf(method_tok),
        spec_token_wf(url),
        spec_token_wf(version_tok),
        spec_headers_wf(hs),
    ensures
        ({
            let bytes = spec_render_request(method_tok, url, version_tok, hs, body);
            &&& (spec_request_ok(bytes) <==> valid_utf8(url))
            &&& spec_method_tok(bytes) == method_tok
            &&& spec_url_tok(bytes) == url
            &&& spec_request_header_pairs(bytes) == Some(spec_decoded_pairs(hs))
            &&& spec_body(bytes) == body
        }),
{
    let bytes = spec_render_request(method_tok, url, version_tok, hs, body);
    let hb = spec_render_header_lines(hs);
    let rl = method_tok + seq![32u8] + url + seq![32u8] + version_tok;
    let rln = rl.len() as int;
    assert(bytes =~= rl + seq![13u8, 10u8] + hb + seq![13u8, 10u8] + body);
    let mn = method_tok.len() as int;
    let un = url.len() as int;
    // The request line, byte by byte.
    assert(forall|i: int| 0 <= i < mn ==> bytes[i] == method_tok[i]);
    assert(bytes[mn] == 32);
    assert(forall|i: int| 0 <= i < un ==> bytes[mn + 1 + i] == url[i]);
    assert(bytes[mn + 1 + un] == 32);
    assert(forall|i: int| 0 <= i < version_tok.len() ==> bytes[mn + un + 2 + i] == version_tok[i]);
    assert(bytes[rln] == 13 && bytes[rln + 1] == 10);
    // The first space ends the method token.
    lemma_find_is_first(bytes, 32u8, mn);
    assert(spec_sp1(bytes) == Some(mn));
    assert(spec_method_tok(bytes) =~= method_tok);
    // The second space ends the URL token.
    let after = bytes.skip(mn + 1);
    assert(forall|i: int| 0 <= i < un ==> after[i] == url[i] && url[i] != 32);
    assert(after[un] == 32);
    lemma_find_is_first(after, 32u8, un);
    assert(spec_sp2(bytes) == Some(un));
    assert(spec_url_tok(bytes) =~= url);
    // The first line feed ends the request line.
    assert(forall|j: int| 0 <= j < rln + 1 ==> bytes[j] != 10);
    lemma_find_is_first(bytes, 10u8, rln + 1);
    // The lines after it parse back to the headers.
    let tail = bytes.skip(rln + 2);
    assert(tail =~= hb + seq![13u8, 10u8] + body);
    lemma_parse_rendered_headers(hs, body);
    assert(spec_request_header_pairs(bytes) == Some(spec_decoded_pairs(hs)));
    assert(spec_request_ok(bytes) <==> valid_utf8(url));
    // The first header terminator ends the header block, so the body is
    // exactly what was rendered after it.
    let suffix = bytes.skip(rln);
    assert(suffix =~= seq![13u8, 10u8] + hb + seq![13u8, 10u8] + body);
    lemma_rendered_crlf2(hs, body);
    lemma_find_crlf2_ensures(suffix);
    assert(forall|j: int| rln <= j ==> (#[trigger] spec_crlf2_at(bytes, j) <==> spec_crlf2_at(
        suffix,
        j - rln,
    ))) by {
        assert(forall|j: int| 0 <= j < suffix.len() ==> suffix[j] == bytes[rln + j]);
    }
    assert(spec_crlf2_at(bytes, rln + hb.len())) by {
        assert(spec_crlf2_at(suffix, hb.len() as int));
    }
    assert(forall|j: int| 0 <= j < rln + hb.len() ==> !spec_crlf2_at(bytes, j)) by {
        assert(forall|j: int| 0 <= j < rln ==> bytes[j] != 13);
        assert(forall|j: int| 0 <= j < hb.len() ==> !#[trigger] spec_crlf2_at(suffix, j));
    }
    lemma_find_crlf2_is_first(bytes, rln + hb.len());
    assert(spec_body(bytes) =~= body);
}

/// A recognized method is named by its own token: parsing the token of
/// any method but `UNKNOWN` gives that method back, and the token can
/// stand in a request line. With `lemma_parse_round_trip`, a request
/// rendered with a recognized method's token parses back to that method.
pub proof fn lemma_method_token_round_trip(m: Method)
    requires
        m != Method::UNKNOWN,
    ensures
        spec_method_of(spec_method_token(m)) == m,
        spec_token_wf(spec_method_token(m)),
{
    let t = spec_method_token(m);
    match m {
        Method::GET => {
            assert(t == spec_method_token(Method::GET));
        },
        Method::POST => {
            assert(t.len() != spec_method_token(Method::GET).len());
        },
        Method::PUT => {
            assert(t[1] != spec_method_token(Method::GET)[1]);
            assert(t[0] != spec_method_token(Method::HEAD)[0]);
        },
        Method::DELETE => {
            assert(t[0] != spec_method_token(Method::CONNECT)[0]);
        },
        Method::HEAD => {
            assert(t[0] != spec_method_token(Method::POST)[0]);
        },
        Method::OPTIONS => {
            assert(t[0] != spec_method_token(Method::CONNECT)[0]);
        },
        Method::CONNECT => {
            assert(t[0] != spec_method_token(Method::OPTIONS)[0]);
        },
        Method::PATCH => {
            assert(t[1] != spec_method_token(Method::TRACE)[1]);
        },
        Method::TRACE => {
            assert(t[0] != spec_method_token(Method::PATCH)[0]);
        },
        Method::UNKNOWN => {},
    }
}

/// A server request, parsed from the raw bytes of one socket read.
#[derive(Debug)]
pub struct Request {
    /// The address of the peer the connection came from.
    pub ip: PeerAddr,
    /// The raw URL token of the request line.
    /// Use `Request::parse_url` to get a parsed version of the URL.
    pub url: String,
    /// The method of the request line; `Method::UNKNOWN` where the token
    /// names no known method.
    pub method: Method,
    /// The body: every byte after the header terminator, exactly as
    /// read. Use `Request::text` for a lossy text view.
    pub body: Vec<u8>,
    /// The parsed headers.
    pub headers: Headers,
}

/// Parses the header lines in `s`, inserting each pair into `headers`;
/// reports whether every line before the terminator was well-formed.
fn parse_header_lines(s: &[u8], headers: &mut Headers) -> (r: bool)
    ensures
        match spec_parse_headers(s@) {
            None => !r,
            Some(ps) => r && final(headers)@ == spec_insert_all(old(headers)@, ps),
        },
    decreases s@.len(),
{
    proof {
        lemma_find_ensures(s@, 10u8);
    }
    if s.len() == 0 {
        return true;
    }
    let (line, rest): (&[u8], Option<&[u8]>) = match find_byte(s, 10) {
        Some(i) => (
            vstd::slice::slice_subrange(s, 0, i),
            Some(vstd::slice::slice_subrange(s, i + 1, s.len())),
        ),
        None => (s, None),
    };
    let terminator = line.len() == 0 || (line.len() == 1 && line[0] == 13);
    proof {
        assert(terminator == spec_is_terminator(line@)) by {
            if line@.len() == 1 && line@[0] == 13 {
                assert(line@ =~= seq![13u8]);
            }
        }
    }
    if terminator {
        return true;
    }
    proof {
        lemma_find_ensures(line@, 58u8);
    }
    match find_byte(line, 58) {
        None => false,
        Some(p) => {
            let key = lossy_string(trim_ascii(vstd::slice::slice_subrange(line, 0, p)));
            let value = lossy_string(trim_ascii(vstd::slice::slice_subrange(line, p + 1, line.len())));
            proof {
                assert(line@.subrange(0, p as int) =~= line@.take(p as int));
                assert(line@.subrange(p + 1, line@.len() as int) =~= line@.skip(p + 1));
            }
            let ghost entry = headers@;
            let ghost p0 = spec_header_pair(line@).unwrap();
            headers.insert(key, value);
            proof {
                assert(headers@ == entry.insert(p0.0, p0.1));
            }
            match rest {
                Some(rest) => {
                    let ghost mid = headers@;
                    let r = parse_header_lines(rest, headers);
                    proof {
                        if let Some(t) = spec_parse_headers(rest@) {
                            let ps = seq![p0] + t;
                            assert(spec_parse_headers(s@) == Some(ps));
                            assert(ps.drop_first() =~= t);
                            assert(ps[0] == p0);
                            assert(headers@ == spec_insert_all(mid, t));
                            assert(spec_insert_all(entry, ps) == spec_insert_all(
                                entry.insert(ps[0].0, ps[0].1),
                                ps.drop_first(),
                            ));
                            assert(spec_insert_all(entry, ps) == spec_insert_all(mid, t));
                        }
                    }
                    r
                },
                None => {
                    proof {
                        let ps = seq![p0];
                        assert(spec_parse_headers(s@) == Some(ps));
                        assert(ps.drop_first() =~= Seq::<(Seq<char>, Seq<char>)>::empty());
                        assert(ps[0] == p0);
                        assert(spec_insert_all(entry, ps) == spec_insert_all(
                            entry.insert(p0.0, p0.1),
                            ps.drop_first(),
                        ));
                    }
                    true
                },
            }
        },
    }
}

impl Request {
    /// Parses a request from raw bytes and the peer address. The bytes
    /// are parsed exactly as read: the body is what follows the header
    /// terminator, with no continuation past this one read.
    pub fn new(bytes: &[u8], ip: PeerAddr) -> (r: Option<Request>)
        ensures
            r is Some <==> spec_request_ok(bytes@),
            r matches Some(req) ==> spec_parsed(req, bytes@, ip),
    {
        let n = bytes.len();
        proof {
            lemma_find_ensures(bytes@, 32u8);
        }
        let i1 = match find_byte(bytes, 32) {
            Some(i) => i,
            None => {
                return None;
            },
        };
        let after = vstd::slice::slice_subrange(bytes, i1 + 1, n);
        proof {
            assert(after@ == bytes@.skip(i1 + 1));
        }
        proof {
            lemma_find_ensures(after@, 32u8);
        }
        let i2 = match find_byte(after, 32) {
            Some(i) => i,
            None => {
                return None;
            },
        };
        let method = Method::from_token(vstd::slice::slice_subrange(bytes, 0, i1));
        proof {
            assert(bytes@.subrange(0, i1 as int) =~= spec_method_tok(bytes@));
        }
        let url_tok = vstd::slice::slice_subrange(after, 0, i2);
        proof {
            assert(url_tok@ =~= spec_url_tok(bytes@));
        }
        let url = match string_from_utf8(slice_to_vec(url_tok)) {
            Some(u) => u,
            None => {
                return None;
            },
        };
        let mut headers = Headers::new();
        proof {
            lemma_find_ensures(bytes@, 10u8);
        }
        let ok = match find_byte(bytes, 10) {
            None => true,
            Some(l) => parse_header_lines(
                vstd::slice::slice_subrange(bytes, l + 1, n),
                &mut headers,
            ),
        };
        if !ok {
            return None;
        }
        let body: Vec<u8> = match find_crlf2(bytes) {
            Some(p) => slice_to_vec(vstd::slice::slice_subrange(bytes, p + 4, n)),
            None => Vec::new(),
        };
        proof {
            assert(body@ == spec_body(bytes@));
        }
        Some(Request { ip, url, method, body, headers })
    }

    /// Safely gets a header.
    pub fn get_header(&self, key: &str) -> (r: Option<&str>)
        ensures
            match r {
                Some(v) => self.headers@.dom().contains(key@) && v@ == self.headers@[key@],
                None => !self.headers@.dom().contains(key@),
            },
    {
        match self.headers.get(key) {
            Some(v) => Some(v.as_str()),
            None => None,
        }
    }

    /// The header value under `key`, or `default` where none is set.
    pub fn get_header_or(&self, key: &str, default: &'static str) -> (r: &str)
        ensures
            r@ == if self.headers@.dom().contains(key@) {
                self.headers@[key@]
            } else {
                default@
            },
    {
        match self.get_header(key) {
            Some(v) => v,
            None => default,
        }
    }

    /// Whether a header is set.
    pub fn has_header(&self, key: &str) -> (r: bool)
        ensures
            r == self.headers@.dom().contains(key@),
    {
        self.headers.contains_key(key)
    }

    /// Sets a header, overwriting any earlier value of the key.
    pub fn set_header(&mut self, key: &str, value: &str)
        ensures
            final(self).headers@ == old(self).headers@.insert(key@, value@),
            final(self).ip == old(self).ip,
            final(self).url == old(self).url,
            final(self).method == old(self).method,
            final(self).body == old(self).body,
    {
        self.headers.insert(key.to_owned(), value.to_owned());
    }

    /// The length of the body.
    pub fn len(&self) -> (r: usize)
        ensures
            r == self.body@.len(),
    {
        self.body.len()
    }

    /// Whether the body is empty.
    pub fn is_empty(&self) -> (r: bool)
        ensures
            r == (self.body@.len() == 0),
    {
        self.body.is_empty()
    }

    /// The body as text, invalid UTF-8 replaced; the raw bytes stay
    /// unchanged in `body`.
    pub fn text(&self) -> (r: String)
        ensures
            r@ == lossy_decode(self.body@),
            valid_utf8(self.body@) ==> r@ == decode_utf8(self.body@),
    {
        lossy_string(self.body.as_slice())
    }

    /// A parsed version of the URL.
    pub fn parse_url(&self) -> (r: Url)
        ensures
            r.path@.map_values(|s: String| s@) == spec_url_path(self.url@),
            r.search_params@ == spec_url_query_map(self.url@),
            match spec_url_fragment(self.url@) {
                None => r.fragment is None,
                Some(f) => r.fragment matches Some(g) && g@ == f,
            },
    {
        Url::from(self.url.as_str())
    }

    /// The address of the peer, formatted.
    pub fn pretty_ip(&self) -> (r: String)
        ensures
            r@ == spec_format_addr(self.ip),
    {
        format_addr(&self.ip)
    }
}

impl Clone for Request {
    fn clone(&self) -> (r: Request)
        ensures
            r.ip == self.ip,
            r.url == self.url,
            r.method == self.method,
            r.body@ == self.body@,
            r.headers@ == self.headers@,
    {
        Request {
            ip: self.ip.clone(),
            url: self.url.clone(),
            method: self.method,
            body: slice_to_vec(self.body.as_slice()),
            headers: self.headers.clone(),
        }
    }
}

impl PartialEq for Request {
    fn eq(&self, other: &Request) -> (r: bool) {
        self.ip == other.ip && str_eq(self.url.as_str(), other.url.as_str()) && self.method
            == other.method && bytes_eq(self.body.as_slice(), other.body.as_slice())
            && self.headers == other.headers
    }
}

impl vstd::std_specs::cmp::PartialEqSpecImpl for Request {
    open spec fn obeys_eq_spec() -> bool {
        true
    }

    open spec fn eq_spec(&self, other: &Request) -> bool {
        &&& crate::addr::spec_addr_eq(self.ip, other.ip)
        &&& self.url@ == other.url@
        &&& self.method == other.method
        &&& self.body@ == other.body@
        &&& self.headers@ == other.headers@
    }
}

} // verus!
