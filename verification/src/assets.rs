//! Path resolution and small helpers around exported assets.
//!
//! Paths are handled as plain strings with `/` as the separator, and an
//! absolute path is one that starts with `/`.

use vstd::prelude::*;
use crate::text;

verus! {

/// `rel` appended under `base` with a single separator.
pub open spec fn joined(base: Seq<char>, rel: Seq<char>) -> Seq<char> {
    if base.len() > 0 && base.last() == '/' {
        base + rel
    } else {
        base + "/"@ + rel
    }
}

/// Where a named asset is written: an absolute per-asset path wins;
/// a relative one goes under the base directory; without one the asset
/// lands at `<base>/<name>.png`.  The base directory defaults to `.`.
pub open spec fn resolved_output(
    base_dir: Option<Seq<char>>,
    asset_output: Option<Seq<char>>,
    name: Seq<char>,
) -> Seq<char> {
    let base = match base_dir {
        Some(b) => b,
        None => "."@,
    };
    match asset_output {
        Some(o) => if o.len() > 0 && o.first() == '/' {
            o
        } else {
            joined(base, o)
        },
        None => joined(base, name + ".png"@),
    }
}

fn join_path(base: &str, rel: &str) -> (r: String)
    ensures
        r@ == joined(base@, rel@),
{
    let n = base.unicode_len();
    if n > 0 && base.get_char(n - 1) == '/' {
        base.to_owned().concat(rel)
    } else {
        base.to_owned().concat("/").concat(rel)
    }
}

/// The output path of one asset of a sync manifest.
pub fn resolve_output_path(base_dir: &Option<String>, asset_output: &Option<String>, name: &str)
    -> (r: String)
    ensures
        r@ == resolved_output(base_dir.deep_view(), asset_output.deep_view(), name@),
{
    let base: &str = match base_dir {
        Some(b) => b.as_str(),
        None => ".",
    };
    proof {
        reveal_strlit(".");
    }
    match asset_output {
        Some(o) => {
            let olen = o.as_str().unicode_len();
            if olen > 0 && o.as_str().get_char(0) == '/' {
                o.clone()
            } else {
                join_path(base, o.as_str())
            }
        },
        None => {
            let file = name.to_owned().concat(".png");
            join_path(base, file.as_str())
        },
    }
}

/// The position after the last `d` in `s`; 0 when `s` has none.
pub open spec fn after_last(s: Seq<char>, d: char) -> int
    decreases s.len(),
{
    if s.len() == 0 {
        0
    } else if s.last() == d {
        s.len() as int
    } else {
        after_last(s.drop_last(), d)
    }
}

/// The extension of a path: what follows the last `.` of the last path
/// component, when that component has a `.` after its first character.
pub open spec fn extension_of(p: Seq<char>) -> Option<Seq<char>> {
    let file = p.skip(after_last(p, '/'));
    let dot = after_last(file, '.');
    if dot > 1 {
        Some(file.skip(dot))
    } else {
        None
    }
}

fn find_after_last(s: &str, d: char) -> (r: usize)
    ensures
        r == after_last(s@, d),
        r <= s@.len(),
{
    let n = s.unicode_len();
    let mut j: usize = n;
    proof {
        assert(s@.take(n as int) =~= s@);
    }
    while j > 0
        invariant
            n == s@.len(),
            0 <= j <= n,
            after_last(s@, d) == after_last(s@.take(j as int), d),
        decreases j,
    {
        proof {
            let t = s@.take(j as int);
            assert(t.last() == s@.index(j - 1));
            assert(t.drop_last() =~= s@.take(j - 1));
        }
        if s.get_char(j - 1) == d {
            return j;
        }
        j -= 1;
    }
    0
}

/// The path names an image file this tool compares: its extension,
/// lower-cased ASCII, is one of the known raster formats.
pub fn is_image(path: &str) -> (r: bool)
    ensures
        r == (match extension_of(path@) {
            Some(e) => {
                let l = text::lower_seq(e);
                l == "png"@ || l == "jpg"@ || l == "jpeg"@ || l == "gif"@ || l == "webp"@
            },
            None => false,
        }),
{
    let n = path.unicode_len();
    let start = find_after_last(path, '/');
    let file = path.substring_char(start, n);
    proof {
        assert(file@ =~= path@.skip(after_last(path@, '/')));
    }
    let flen = file.unicode_len();
    let dot = find_after_last(file, '.');
    if dot <= 1 {
        return false;
    }
    let ext = file.substring_char(dot, flen);
    proof {
        assert(ext@ =~= file@.skip(after_last(file@, '.')));
    }
    let l = text::lower_ascii(ext);
    let ls = l.as_str();
    text::str_eq(ls, "png") || text::str_eq(ls, "jpg") || text::str_eq(ls, "jpeg") || text::str_eq(
        ls, "gif") || text::str_eq(ls, "webp")
}

/// Two pixels are similar when each colour channel differs by at most
/// the tolerance; the alpha channel is ignored.
pub fn pixels_similar(p1: (u8, u8, u8), p2: (u8, u8, u8), tolerance: u8) -> (r: bool)
    ensures
        r == ({
            &&& abs_diff(p1.0 as int, p2.0 as int) <= tolerance
            &&& abs_diff(p1.1 as int, p2.1 as int) <= tolerance
            &&& abs_diff(p1.2 as int, p2.2 as int) <= tolerance
        }),
{
    channel_close(p1.0, p2.0, tolerance) && channel_close(p1.1, p2.1, tolerance) && channel_close(
        p1.2, p2.2, tolerance)
}

/// The distance between two integers.
pub open spec fn abs_diff(a: int, b: int) -> int {
    if a >= b {
        a - b
    } else {
        b - a
    }
}

fn channel_close(a: u8, b: u8, tolerance: u8) -> (r: bool)
    ensures
        r == (abs_diff(a as int, b as int) <= tolerance),
{
    let d: u8 = if a >= b {
        a - b
    } else {
        b - a
    };
    d <= tolerance
}

} // verus!
