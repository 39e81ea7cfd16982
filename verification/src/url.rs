//! Parsing of design-file URLs and file keys.
//!
//! [`FigmaUrl::parse`] accepts a full URL of the design service, a bare
//! file key, or a `fileKey:nodeId` pair, and extracts the file key plus
//! the optional node id and file name.  The grammar is deliberately
//! small: scheme, host up to the first `/`, `?` or `#`, path segments,
//! and the query string split on `&` with literal parameter names.
//! Percent-decoding of path-segment names and query values is done by
//! an outside decoder behind a trusted wrapper.

use vstd::prelude::*;
use crate::text;

verus! {

/// What the outside percent-decoder returns: a function of the input
/// characters alone; `None` stands for its failure (the decoded bytes
/// not being valid text).
pub uninterp spec fn percent_decoded(s: Seq<char>) -> Option<Seq<char>>;

/// Relies on urlencoding::decode: percent-decoding depends on the input
/// alone, and an input without '%' decodes to itself.
#[verifier::external_body]
fn decode_percent(s: &str) -> (r: Option<String>)
    ensures
        r matches Some(d) ==> percent_decoded(s@) == Some(d@),
        r is None ==> percent_decoded(s@) is None,
        r is None ==> s@.contains('%'),
        !s@.contains('%') ==> (r matches Some(d) ==> d@ == s@),
{
    match urlencoding::decode(s) {
        Ok(d) => Some(d.into_owned()),
        Err(_) => None,
    }
}

/// The decoded value, or the raw one where decoding fails.
pub open spec fn decoded_or_raw(v: Seq<char>) -> Seq<char> {
    match percent_decoded(v) {
        Some(d) => d,
        None => v,
    }
}

/// First position at or after `i` holding `d`, or the length when none
/// does.
pub open spec fn first_from(s: Seq<char>, d: char, i: int) -> int
    decreases s.len() - i,
{
    if i < 0 || i >= s.len() {
        s.len() as int
    } else if s.index(i) == d {
        i
    } else {
        first_from(s, d, i + 1)
    }
}

/// Ends the host part: `/`, `?` or `#`.
pub open spec fn is_stop(c: char) -> bool {
    c == '/' || c == '?' || c == '#'
}

/// Ends the path part: `?` or `#`.
pub open spec fn is_break(c: char) -> bool {
    c == '?' || c == '#'
}

/// First position at or after `i` holding a host delimiter.
pub open spec fn first_stop_from(s: Seq<char>, i: int) -> int
    decreases s.len() - i,
{
    if i < 0 || i >= s.len() {
        s.len() as int
    } else if is_stop(s.index(i)) {
        i
    } else {
        first_stop_from(s, i + 1)
    }
}

/// First position at or after `i` holding a path delimiter.
pub open spec fn first_break_from(s: Seq<char>, i: int) -> int
    decreases s.len() - i,
{
    if i < 0 || i >= s.len() {
        s.len() as int
    } else if is_break(s.index(i)) {
        i
    } else {
        first_break_from(s, i + 1)
    }
}

/// `first_from` yields a position between `i` and the length.
pub proof fn lemma_first_from_bounds(s: Seq<char>, d: char, i: int)
    requires
        0 <= i <= s.len(),
    ensures
        i <= first_from(s, d, i) <= s.len(),
    decreases s.len() - i,
{
    if i < s.len() && s.index(i) != d {
        lemma_first_from_bounds(s, d, i + 1);
    }
}

/// The non-empty pieces of `s` between occurrences of `d`.
pub open spec fn segments_of(s: Seq<char>, d: char) -> Seq<Seq<char>>
    decreases s.len(),
    via segments_of_dec
{
    let i = first_from(s, d, 0);
    if i == s.len() {
        if s.len() == 0 {
            Seq::empty()
        } else {
            seq![s]
        }
    } else if i == 0 {
        segments_of(s.drop_first(), d)
    } else {
        seq![s.take(i)] + segments_of(s.skip(i + 1), d)
    }
}

#[via_fn]
proof fn segments_of_dec(s: Seq<char>, d: char) {
    lemma_first_from_bounds(s, d, 0);
}

/// The key of one `k=v` query piece; the whole piece when it has no
/// `=`.
pub open spec fn pair_key(p: Seq<char>) -> Seq<char> {
    p.take(first_from(p, '=', 0))
}

/// The value of one `k=v` query piece; empty when it has no `=`.
pub open spec fn pair_value(p: Seq<char>) -> Seq<char> {
    let i = first_from(p, '=', 0);
    if i == p.len() {
        Seq::empty()
    } else {
        p.skip(i + 1)
    }
}

/// The value of the first piece whose key is exactly `node-id`.
pub open spec fn node_id_in(pieces: Seq<Seq<char>>) -> Option<Seq<char>>
    decreases pieces.len(),
{
    if pieces.len() == 0 {
        None
    } else if pair_key(pieces.first()) == "node-id"@ {
        Some(pair_value(pieces.first()))
    } else {
        node_id_in(pieces.drop_first())
    }
}

/// The raw `node-id` value of a query string, if present.
pub open spec fn node_id_of(q: Seq<char>) -> Option<Seq<char>> {
    node_id_in(segments_of(q, '&'))
}

/// The input carries an explicit scheme.
pub open spec fn has_scheme(s: Seq<char>) -> bool {
    (s.len() >= 7 && s.subrange(0, 7) == "http://"@) || (s.len() >= 8 && s.subrange(0, 8)
        == "https://"@)
}

/// Where the scheme ends.
pub open spec fn scheme_end(s: Seq<char>) -> int {
    if s.len() >= 8 && s.subrange(0, 8) == "https://"@ {
        8
    } else {
        7
    }
}

/// The host: everything between the scheme and the first `/`, `?` or
/// `#`.
pub open spec fn url_host(s: Seq<char>) -> Seq<char> {
    s.subrange(scheme_end(s), first_stop_from(s, scheme_end(s)))
}

/// The path: from the first `/` after the host up to the first `?` or
/// `#`; empty when the host is followed by no `/`.
pub open spec fn url_path(s: Seq<char>) -> Seq<char> {
    let he = first_stop_from(s, scheme_end(s));
    if he < s.len() && s.index(he) == '/' {
        s.subrange(he, first_break_from(s, he))
    } else {
        Seq::empty()
    }
}

/// The query: everything between the first `?` and the first `#` after
/// it; empty when there is no `?`.
pub open spec fn url_query(s: Seq<char>) -> Seq<char> {
    let pe = first_break_from(s, scheme_end(s));
    if pe < s.len() && s.index(pe) == '?' {
        s.subrange(pe + 1, first_from(s, '#', pe + 1))
    } else {
        Seq::empty()
    }
}

/// A path type this service serves files under.
pub open spec fn valid_url_type(t: Seq<char>) -> bool {
    t == "file"@ || t == "design"@ || t == "proto"@ || t == "board"@
}

/// The URL parses to a file reference: the host belongs to the design
/// service, and the path holds a valid type followed by a file key.
pub open spec fn parsed_url_ok(s: Seq<char>) -> bool {
    let segs = segments_of(url_path(s), '/');
    &&& text::contains_seq(text::lower_seq(url_host(s)), "figma.com"@)
    &&& segs.len() >= 2
    &&& valid_url_type(segs.first())
}

/// The file key of a well-formed URL: the second path segment.
pub open spec fn url_file_key(s: Seq<char>) -> Seq<char> {
    segments_of(url_path(s), '/').index(1)
}

/// The file name of a URL: the third path segment, percent-decoded and
/// with hyphens turned into spaces; the raw segment when decoding
/// fails; nothing when the path has no third segment.
pub open spec fn url_file_name(s: Seq<char>) -> Option<Seq<char>> {
    let segs = segments_of(url_path(s), '/');
    if segs.len() >= 3 {
        Some(
            match percent_decoded(segs.index(2)) {
                Some(d) => text::replace_char_seq(d, '-', ' '),
                None => segs.index(2),
            },
        )
    } else {
        None
    }
}

/// The node id of a URL: the `node-id` query value, percent-decoded
/// where possible, with hyphens turned into colons (the query writes
/// `12-34` for the node `12:34`).
pub open spec fn url_node_id(s: Seq<char>) -> Option<Seq<char>> {
    match node_id_of(url_query(s)) {
        Some(v) => Some(text::replace_char_seq(decoded_or_raw(v), '-', ':')),
        None => None,
    }
}

/// ASCII letter or digit.
pub open spec fn is_ascii_alnum(c: char) -> bool {
    ('0' <= c && c <= '9') || ('a' <= c && c <= 'z') || ('A' <= c && c <= 'Z')
}

/// Every character is an ASCII letter or digit.
pub open spec fn all_alnum(s: Seq<char>) -> bool {
    forall|k: int| 0 <= k < s.len() ==> is_ascii_alnum(#[trigger] s.index(k))
}

/// The input has the `fileKey:nodeId` shape: a colon splits an
/// alphanumeric key from a node id that itself carries a colon.
pub open spec fn is_key_with_node(t: Seq<char>) -> bool {
    let i = first_from(t, ':', 0);
    &&& i < t.len()
    &&& all_alnum(t.take(i))
    &&& first_from(t.skip(i + 1), ':', 0) < t.skip(i + 1).len()
}

/// The key part of a `fileKey:nodeId` input.
pub open spec fn kwn_key(t: Seq<char>) -> Seq<char> {
    t.take(first_from(t, ':', 0))
}

/// The node part of a `fileKey:nodeId` input.
pub open spec fn kwn_node(t: Seq<char>) -> Seq<char> {
    t.skip(first_from(t, ':', 0) + 1)
}

/// Why an input was rejected.
#[derive(Debug, PartialEq, Eq)]
pub enum UrlError {
    /// The host does not belong to the design service.
    NotFigma,
    /// The path has no file key.
    MissingFileKey,
    /// The path type is none this service serves files under.
    InvalidUrlType,
}

/// The rejection a URL input earns, where it earns one.
pub open spec fn url_error_of(s: Seq<char>) -> UrlError {
    if !text::contains_seq(text::lower_seq(url_host(s)), "figma.com"@) {
        UrlError::NotFigma
    } else if segments_of(url_path(s), '/').len() < 2 {
        UrlError::MissingFileKey
    } else {
        UrlError::InvalidUrlType
    }
}

/// A parsed file reference.
#[derive(Debug)]
pub struct FigmaUrl {
    /// The file key.
    pub file_key: String,
    /// The node id, when one was given.
    pub node_id: Option<String>,
    /// The file name from the URL, when one was given.
    pub file_name: Option<String>,
}

fn find_from(s: &str, d: char, from: usize) -> (r: usize)
    requires
        from <= s@.len(),
    ensures
        r == first_from(s@, d, from as int),
        from <= r <= s@.len(),
{
    let n = s.unicode_len();
    let mut i: usize = from;
    while i < n
        invariant
            n == s@.len(),
            from <= i <= n,
            first_from(s@, d, from as int) == first_from(s@, d, i as int),
        decreases n - i,
    {
        if s.get_char(i) == d {
            return i;
        }
        i += 1;
    }
    i
}

fn find_stop(s: &str, from: usize) -> (r: usize)
    requires
        from <= s@.len(),
    ensures
        r == first_stop_from(s@, from as int),
        from <= r <= s@.len(),
{
    let n = s.unicode_len();
    let mut i: usize = from;
    while i < n
        invariant
            n == s@.len(),
            from <= i <= n,
            first_stop_from(s@, from as int) == first_stop_from(s@, i as int),
        decreases n - i,
    {
        let c = s.get_char(i);
        if c == '/' || c == '?' || c == '#' {
            return i;
        }
        i += 1;
    }
    i
}

fn find_break(s: &str, from: usize) -> (r: usize)
    requires
        from <= s@.len(),
    ensures
        r == first_break_from(s@, from as int),
        from <= r <= s@.len(),
{
    let n = s.unicode_len();
    let mut i: usize = from;
    while i < n
        invariant
            n == s@.len(),
            from <= i <= n,
            first_break_from(s@, from as int) == first_break_from(s@, i as int),
        decreases n - i,
    {
        let c = s.get_char(i);
        if c == '?' || c == '#' {
            return i;
        }
        i += 1;
    }
    i
}

/// The non-empty pieces of `s` between occurrences of `d`.
fn split_segments(s: &str, d: char) -> (out: Vec<String>)
    ensures
        out.deep_view() == segments_of(s@, d),
    decreases s@.len(),
{
    let n = s.unicode_len();
    let i = find_from(s, d, 0);
    if i == n {
        let mut out: Vec<String> = Vec::new();
        if n > 0 {
            out.push(s.to_owned());
        }
        proof {
            assert(out.deep_view() =~= segments_of(s@, d));
        }
        out
    } else if i == 0 {
        let out = split_segments(s.substring_char(1, n), d);
        proof {
            assert(s@.subrange(1, n as int) =~= s@.drop_first());
        }
        out
    } else {
        let piece = s.substring_char(0, i);
        let mut out = split_segments(s.substring_char(i + 1, n), d);
        proof {
            assert(s@.subrange(i + 1, n as int) =~= s@.skip(i + 1));
        }
        out.insert(0, piece.to_owned());
        proof {
            assert(s@.subrange(0, i as int) =~= s@.take(i as int));
            assert(out.deep_view() =~= seq![s@.take(i as int)] + segments_of(
                s@.skip(i + 1), d));
        }
        out
    }
}

/// The raw `node-id` value of a query string, if present.
fn find_node_id(q: &str) -> (r: Option<String>)
    ensures
        match node_id_of(q@) {
            Some(v) => r matches Some(x) && x@ == v,
            None => r is None,
        },
{
    let pieces = split_segments(q, '&');
    let n = pieces.len();
    let mut i: usize = 0;
    proof {
        assert(pieces.deep_view().skip(0) =~= pieces.deep_view());
    }
    while i < n
        invariant
            n == pieces.len(),
            0 <= i <= n,
            pieces.deep_view() == segments_of(q@, '&'),
            node_id_in(pieces.deep_view()) == node_id_in(pieces.deep_view().skip(i as int)),
        decreases n - i,
    {
        proof {
            let t = pieces.deep_view().skip(i as int);
            assert(t.first() == pieces.deep_view().index(i as int));
            assert(pieces.deep_view().index(i as int) == pieces@.index(i as int)@);
            assert(t.drop_first() =~= pieces.deep_view().skip(i + 1));
        }
        let piece: &String = &pieces[i];
        let plen = piece.as_str().unicode_len();
        let eq_pos = find_from(piece.as_str(), '=', 0);
        let key = piece.as_str().substring_char(0, eq_pos);
        proof {
            assert(key@ =~= pair_key(piece@));
        }
        if text::str_eq(key, "node-id") {
            let value = if eq_pos == plen {
                String::new()
            } else {
                piece.as_str().substring_char(eq_pos + 1, plen).to_owned()
            };
            proof {
                if eq_pos < plen {
                    assert(piece@.subrange(eq_pos + 1, plen as int) =~= pair_value(piece@));
                } else {
                    assert(value@ =~= pair_value(piece@));
                }
            }
            return Some(value);
        }
        i += 1;
    }
    proof {
        assert(pieces.deep_view().skip(n as int) =~= Seq::<Seq<char>>::empty());
    }
    None
}

impl FigmaUrl {
    /// Parse a URL of the design service, once the scheme is known to
    /// be present.
    fn parse_url(s: &str) -> (r: Result<FigmaUrl, UrlError>)
        requires
            has_scheme(s@),
        ensures
            (r is Ok) == parsed_url_ok(s@),
            r matches Ok(f) ==> {
                &&& f.file_key@ == url_file_key(s@)
                &&& f.node_id.deep_view() == url_node_id(s@)
                &&& f.file_name.deep_view() == url_file_name(s@)
            },
            r matches Err(e) ==> e == url_error_of(s@),
    {
        proof {
            reveal_strlit("http://");
            reveal_strlit("https://");
        }
        let n = s.unicode_len();
        let se: usize = if text::starts_with(s, "https://") {
            8
        } else {
            7
        };
        proof {
            assert(se as int == scheme_end(s@));
        }
        let he = find_stop(s, se);
        let host = s.substring_char(se, he);
        proof {
            assert(host@ =~= url_host(s@));
        }
        let lowered = text::lower_ascii(host);
        if !text::str_contains(lowered.as_str(), "figma.com") {
            return Err(UrlError::NotFigma);
        }
        let path = if he < n && s.get_char(he) == '/' {
            let pe = find_break(s, he);
            s.substring_char(he, pe)
        } else {
            s.substring_char(n, n)
        };
        proof {
            assert(path@ =~= url_path(s@));
        }
        let segs = split_segments(path, '/');
        if segs.len() < 2 {
            return Err(UrlError::MissingFileKey);
        }
        proof {
            assert(segs.deep_view().first() == segs@.index(0)@);
        }
        let first_seg: &String = &segs[0];
        let is_valid_type = text::str_eq(first_seg.as_str(), "file") || text::str_eq(
            first_seg.as_str(), "design") || text::str_eq(first_seg.as_str(), "proto")
            || text::str_eq(first_seg.as_str(), "board");
        if !is_valid_type {
            return Err(UrlError::InvalidUrlType);
        }
        proof {
            assert(segs.deep_view().index(1) == segs@.index(1)@);
        }
        let file_key = segs[1].clone();
        let file_name: Option<String> = if segs.len() >= 3 {
            proof {
                assert(segs.deep_view().index(2) == segs@.index(2)@);
            }
            match decode_percent(segs[2].as_str()) {
                Some(d) => Some(text::replace_char(d.as_str(), '-', ' ')),
                None => Some(segs[2].clone()),
            }
        } else {
            None
        };
        let qe = find_break(s, se);
        let query = if qe < n && s.get_char(qe) == '?' {
            let qend = find_from(s, '#', qe + 1);
            s.substring_char(qe + 1, qend)
        } else {
            s.substring_char(n, n)
        };
        proof {
            assert(query@ =~= url_query(s@));
        }
        let node_id: Option<String> = match find_node_id(query) {
            Some(v) => {
                let dv = match decode_percent(v.as_str()) {
                    Some(d) => d,
                    None => v,
                };
                Some(text::replace_char(dv.as_str(), '-', ':'))
            },
            None => None,
        };
        Ok(FigmaUrl { file_key, node_id, file_name })
    }

    /// Parse a URL, a bare file key, or a `fileKey:nodeId` pair.  The
    /// input is trimmed of ASCII whitespace first.  A URL is parsed by
    /// the grammar above; a bare key is taken as given.
    pub fn parse(input: &str) -> (r: Result<FigmaUrl, UrlError>)
        ensures
            ({
                let t = text::trim_seq(input@);
                &&& has_scheme(t) ==> {
                    &&& (r is Ok) == parsed_url_ok(t)
                    &&& (r matches Ok(f) ==> f.file_key@ == url_file_key(t)
                        && f.node_id.deep_view() == url_node_id(t)
                        && f.file_name.deep_view() == url_file_name(t))
                    &&& (r matches Err(e) ==> e == url_error_of(t))
                }
                &&& !has_scheme(t) && is_key_with_node(t) ==> (r matches Ok(f) && f.file_key@
                    == kwn_key(t) && f.node_id.deep_view() == Some(kwn_node(t))
                    && f.file_name is None)
                &&& !has_scheme(t) && !is_key_with_node(t) ==> (r matches Ok(f) && f.file_key@
                    == t && f.node_id is None && f.file_name is None)
            }),
    {
        proof {
            reveal_strlit("http://");
            reveal_strlit("https://");
        }
        let trimmed = text::trim_ascii(input);
        if text::starts_with(trimmed, "http://") || text::starts_with(trimmed, "https://") {
            return Self::parse_url(trimmed);
        }
        let n = trimmed.unicode_len();
        let i = find_from(trimmed, ':', 0);
        if i < n {
            let key = trimmed.substring_char(0, i);
            let node = trimmed.substring_char(i + 1, n);
            proof {
                assert(key@ =~= kwn_key(trimmed@));
                assert(node@ =~= kwn_node(trimmed@));
            }
            if Self::all_ascii_alnum(key) {
                let j = find_from(node, ':', 0);
                if j < node.unicode_len() {
                    return Ok(
                        FigmaUrl {
                            file_key: key.to_owned(),
                            node_id: Some(node.to_owned()),
                            file_name: None,
                        },
                    );
                }
            }
        }
        Ok(FigmaUrl { file_key: trimmed.to_owned(), node_id: None, file_name: None })
    }

    fn all_ascii_alnum(s: &str) -> (r: bool)
        ensures
            r == all_alnum(s@),
    {
        let n = s.unicode_len();
        let mut i: usize = 0;
        while i < n
            invariant
                n == s@.len(),
                0 <= i <= n,
                forall|k: int| 0 <= k < i ==> is_ascii_alnum(#[trigger] s@.index(k)),
            decreases n - i,
        {
            let c = s.get_char(i);
            if !(('0' <= c && c <= '9') || ('a' <= c && c <= 'z') || ('A' <= c && c <= 'Z')) {
                assert(!all_alnum(s@));
                return false;
            }
            i += 1;
        }
        true
    }

    /// The input looks like a URL of the design service.
    pub fn is_figma_url(input: &str) -> (r: bool)
        ensures
            r == text::contains_seq(input@, "figma.com/"@),
    {
        text::str_contains(input, "figma.com/")
    }
}

} // verus!
