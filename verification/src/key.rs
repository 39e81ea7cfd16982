//! Cache keys for the remote resources this client fetches.
//!
//! A `CacheKey` identifies one cacheable request; it renders to a stable
//! string that both cache tiers use as the storage key.  Ordered lists of
//! node identifiers and export parameters are folded into a deterministic
//! 64-bit hash (an FNV-style mix), printed as lowercase hex.  The hash is
//! order-sensitive on purpose: callers that want order-independence must
//! sort before hashing.

use vstd::prelude::*;

verus! {

/// Offset basis of the 64-bit FNV-1a hash.
pub const HASH_OFFSET: u64 = 0xcbf29ce484222325;

/// Prime of the 64-bit FNV-1a hash.
pub const HASH_PRIME: u64 = 0x100000001b3;

/// Separator folded in between list items, chosen above every Unicode
/// scalar value so that item boundaries cannot be confused with
/// characters.
pub const HASH_SEP: u64 = 0xffffffff;

/// One mixing step: xor, then multiply by the prime (mod 2^64).
pub open spec fn mix(h: u64, x: u64) -> u64 {
    vstd::wrapping::u64_specs::wrapping_mul(h ^ x, HASH_PRIME)
}

/// Fold the characters of one string into the hash state.
pub open spec fn hash_chars(h: u64, s: Seq<char>) -> u64
    decreases s.len(),
{
    if s.len() == 0 {
        h
    } else {
        hash_chars(mix(h, s.first() as u64), s.drop_first())
    }
}

/// Fold a list of strings into the hash state, with a separator after
/// each item.
pub open spec fn hash_items(h: u64, items: Seq<Seq<char>>) -> u64
    decreases items.len(),
{
    if items.len() == 0 {
        h
    } else {
        hash_items(mix(hash_chars(h, items.first()), HASH_SEP), items.drop_first())
    }
}

/// The hash of an ordered list of node identifiers.
pub open spec fn node_ids_hash(items: Seq<Seq<char>>) -> u64 {
    hash_items(HASH_OFFSET, items)
}

/// The hash of export parameters: the ordered node list, the format
/// string, and the scale (by its bit pattern).
pub open spec fn export_params_hash(items: Seq<Seq<char>>, format: Seq<char>, scale_bits: u32) -> u64 {
    mix(mix(hash_chars(hash_items(HASH_OFFSET, items), format), HASH_SEP), scale_bits as u64)
}

/// Lowercase hex digit for a value below 16.
pub open spec fn hex_digit(d: int) -> char {
    if d == 0 { '0' }
    else if d == 1 { '1' }
    else if d == 2 { '2' }
    else if d == 3 { '3' }
    else if d == 4 { '4' }
    else if d == 5 { '5' }
    else if d == 6 { '6' }
    else if d == 7 { '7' }
    else if d == 8 { '8' }
    else if d == 9 { '9' }
    else if d == 10 { 'a' }
    else if d == 11 { 'b' }
    else if d == 12 { 'c' }
    else if d == 13 { 'd' }
    else if d == 14 { 'e' }
    else { 'f' }
}

/// Lowercase hex rendering without leading zeroes (`0` renders as "0").
pub open spec fn hex_of(n: nat) -> Seq<char>
    decreases n,
{
    if n < 16 {
        seq![hex_digit(n as int)]
    } else {
        hex_of(n / 16).push(hex_digit((n % 16) as int))
    }
}

fn hex_digit_exec(d: u64) -> (r: char)
    requires
        d < 16,
    ensures
        r == hex_digit(d as int),
{
    if d < 10 {
        (48 + (d as u8)) as char
    } else {
        (87 + (d as u8)) as char
    }
}

/// Lowercase hex rendering of a 64-bit value.
pub fn hex_string(n: u64) -> (r: String)
    ensures
        r@ == hex_of(n as nat),
    decreases n,
{
    if n < 16 {
        let mut s = String::new();
        s.push(hex_digit_exec(n));
        proof {
            assert(s@ =~= hex_of(n as nat));
        }
        s
    } else {
        let mut s = hex_string(n / 16);
        s.push(hex_digit_exec(n % 16));
        s
    }
}

fn hash_str(h0: u64, s: &str) -> (h: u64)
    ensures
        h == hash_chars(h0, s@),
{
    let n = s.unicode_len();
    let mut h = h0;
    let mut i: usize = 0;
    proof {
        assert(s@.skip(0) =~= s@);
    }
    while i < n
        invariant
            n == s@.len(),
            0 <= i <= n,
            hash_chars(h0, s@) == hash_chars(h, s@.skip(i as int)),
        decreases n - i,
    {
        let c = s.get_char(i);
        proof {
            let t = s@.skip(i as int);
            assert(t.first() == s@.index(i as int));
            assert(t.drop_first() =~= s@.skip(i + 1));
        }
        h = (h ^ (c as u64)).wrapping_mul(HASH_PRIME);
        i += 1;
    }
    proof {
        assert(s@.skip(n as int) =~= Seq::<char>::empty());
    }
    h
}

fn hash_str_list(h0: u64, items: &Vec<String>) -> (h: u64)
    ensures
        h == hash_items(h0, items.deep_view()),
{
    let n = items.len();
    let mut h = h0;
    let mut i: usize = 0;
    proof {
        assert(items.deep_view().skip(0) =~= items.deep_view());
    }
    while i < n
        invariant
            n == items.len(),
            0 <= i <= n,
            hash_items(h0, items.deep_view()) == hash_items(h, items.deep_view().skip(i as int)),
        decreases n - i,
    {
        proof {
            let t = items.deep_view().skip(i as int);
            assert(t.first() == items.deep_view().index(i as int));
            assert(items.deep_view().index(i as int) == items@.index(i as int)@);
            assert(t.drop_first() =~= items.deep_view().skip(i + 1));
        }
        let hs = hash_str(h, items[i].as_str());
        h = (hs ^ HASH_SEP).wrapping_mul(HASH_PRIME);
        i += 1;
    }
    proof {
        assert(items.deep_view().skip(n as int) =~= Seq::<Seq<char>>::empty());
    }
    h
}

/// A cacheable resource of the remote API, with the identifiers that
/// disambiguate one request from another.
pub enum CacheKey {
    /// Full file metadata by file key.
    File(String),
    /// Light file metadata by file key.
    FileMeta(String),
    /// Specific nodes by file key and node-ids hash.
    Nodes(String, String),
    /// Image export URLs by file key and parameter hash.
    Images(String, String),
    /// Version history by file key.
    Versions(String),
    /// Projects in a team.
    TeamProjects(String),
    /// Files in a project.
    ProjectFiles(String),
    /// Team library components.
    TeamComponents(String),
    /// Team library styles.
    TeamStyles(String),
    /// Component detail by component key.
    Component(String),
}

impl CacheKey {
    /// The stable storage-key string: resource tag, then the identifying
    /// fields, joined by ':'.
    pub open spec fn key_string(self) -> Seq<char> {
        match self {
            CacheKey::File(k) => "file:"@ + k@,
            CacheKey::FileMeta(k) => "file_meta:"@ + k@,
            CacheKey::Nodes(f, n) => "nodes:"@ + f@ + ":"@ + n@,
            CacheKey::Images(f, p) => "images:"@ + f@ + ":"@ + p@,
            CacheKey::Versions(k) => "versions:"@ + k@,
            CacheKey::TeamProjects(t) => "team_projects:"@ + t@,
            CacheKey::ProjectFiles(p) => "project_files:"@ + p@,
            CacheKey::TeamComponents(t) => "team_components:"@ + t@,
            CacheKey::TeamStyles(t) => "team_styles:"@ + t@,
            CacheKey::Component(k) => "component:"@ + k@,
        }
    }

    /// Render the key to its storage string.
    pub fn as_string(&self) -> (r: String)
        ensures
            r@ == self.key_string(),
    {
        match self {
            CacheKey::File(k) => String::from_str("file:").concat(k.as_str()),
            CacheKey::FileMeta(k) => String::from_str("file_meta:").concat(k.as_str()),
            CacheKey::Nodes(f, n) => String::from_str("nodes:").concat(f.as_str()).concat(
                ":").concat(n.as_str()),
            CacheKey::Images(f, p) => String::from_str("images:").concat(f.as_str()).concat(
                ":").concat(p.as_str()),
            CacheKey::Versions(k) => String::from_str("versions:").concat(k.as_str()),
            CacheKey::TeamProjects(t) => String::from_str("team_projects:").concat(t.as_str()),
            CacheKey::ProjectFiles(p) => String::from_str("project_files:").concat(p.as_str()),
            CacheKey::TeamComponents(t) => String::from_str("team_components:").concat(t.as_str()),
            CacheKey::TeamStyles(t) => String::from_str("team_styles:").concat(t.as_str()),
            CacheKey::Component(k) => String::from_str("component:").concat(k.as_str()),
        }
    }

    /// Hash an ordered list of node identifiers into the stable hex
    /// suffix used inside `Nodes` keys.  The hash is order-sensitive:
    /// the same identifiers in another order give another hash.
    pub fn hash_node_ids(ids: &Vec<String>) -> (r: String)
        ensures
            r@ == hex_of(node_ids_hash(ids.deep_view()) as nat),
    {
        let h = hash_str_list(HASH_OFFSET, ids);
        hex_string(h)
    }

    /// Hash export parameters: the ordered node list, the format string,
    /// and the scale, given by its bit pattern so that distinct scales
    /// give distinct entries.
    pub fn hash_export_params(ids: &Vec<String>, format: &str, scale_bits: u32) -> (r: String)
        ensures
            r@ == hex_of(export_params_hash(ids.deep_view(), format@, scale_bits) as nat),
    {
        let h = hash_str_list(HASH_OFFSET, ids);
        let h = hash_str(h, format);
        let h = (h ^ HASH_SEP).wrapping_mul(HASH_PRIME);
        let h = (h ^ (scale_bits as u64)).wrapping_mul(HASH_PRIME);
        hex_string(h)
    }
}

/// Hashing the same ordered list twice yields the same hash: the hash is
/// a function of the list alone, so equal lists always agree.
pub proof fn lemma_hash_deterministic(a: Seq<Seq<char>>, b: Seq<Seq<char>>)
    requires
        a == b,
    ensures
        node_ids_hash(a) == node_ids_hash(b),
{
}

} // verus!
