use vstd::prelude::*;

verus! {

/// The output encodings the library can produce, selected by the
/// destination path's extension.
#[derive(Clone, Copy, PartialEq, Eq, Structural, Debug)]
pub enum OutputFormat {
    Png,
    Jpeg,
    Bmp,
    Gif,
    Ico,
    Tiff,
}

/// Position of the dot that starts the path's extension: the last '.'
/// of the path, provided no '/' stands after it.
pub open spec fn dot_pos(path: Seq<char>) -> Option<int>
    decreases path.len(),
{
    if path.len() == 0 {
        None
    } else if path[path.len() - 1] == '/' {
        None
    } else if path[path.len() - 1] == '.' {
        Some(path.len() - 1)
    } else {
        dot_pos(path.take(path.len() - 1))
    }
}

/// The path's extension: the characters after the last '.', provided
/// that dot is neither the first character of its component (a hidden
/// file such as ".conf" has no extension) nor the last character of
/// the path.
pub open spec fn ext_of(path: Seq<char>) -> Option<Seq<char>> {
    match dot_pos(path) {
        None => None,
        Some(i) => if 0 < i && path[i - 1] != '/' && i + 1 < path.len() {
            Some(path.skip(i + 1))
        } else {
            None
        },
    }
}

/// One character matched case-insensitively against a lower-case ASCII
/// pattern character.
pub open spec fn matches_ci(c: char, p: char) -> bool {
    c == p || (65 <= (c as u32) <= 90 && (c as u32) + 32 == (p as u32))
}

/// Case-insensitive equality against an all-lower-case ASCII pattern.
pub open spec fn eq_ci(s: Seq<char>, pat: Seq<char>) -> bool {
    s.len() == pat.len() && (forall|i: int| 0 <= i < s.len() ==> matches_ci(#[trigger] s[i], pat[i]))
}

/// The dispatch table: which encoder each extension selects, matched
/// without regard to ASCII case.
pub open spec fn format_of_ext(ext: Seq<char>) -> Option<OutputFormat> {
    if eq_ci(ext, "png"@) {
        Some(OutputFormat::Png)
    } else if eq_ci(ext, "jpg"@) || eq_ci(ext, "jpeg"@) {
        Some(OutputFormat::Jpeg)
    } else if eq_ci(ext, "bmp"@) {
        Some(OutputFormat::Bmp)
    } else if eq_ci(ext, "gif"@) {
        Some(OutputFormat::Gif)
    } else if eq_ci(ext, "ico"@) {
        Some(OutputFormat::Ico)
    } else if eq_ci(ext, "tif"@) || eq_ci(ext, "tiff"@) {
        Some(OutputFormat::Tiff)
    } else {
        None
    }
}

/// The format the destination path selects: the table applied to the
/// path's extension; None when the path has no usable extension or the
/// extension names no supported format.
pub open spec fn format_of_path(path: Seq<char>) -> Option<OutputFormat> {
    match ext_of(path) {
        None => None,
        Some(e) => format_of_ext(e),
    }
}

proof fn lemma_dot_pos_some(path: Seq<char>, d: int)
    requires
        0 <= d < path.len(),
        path[d] == '.',
        forall|k: int| d < k < path.len() ==> path[k] != '.' && path[k] != '/',
    ensures
        dot_pos(path) == Some(d),
    decreases path.len(),
{
    if d == path.len() - 1 {
    } else {
        let prefix = path.take(path.len() - 1);
        assert(prefix[d] == path[d]);
        assert(forall|k: int| d < k < prefix.len() ==> prefix[k] == path[k]);
        lemma_dot_pos_some(prefix, d);
    }
}

proof fn lemma_dot_pos_none(path: Seq<char>, i: int)
    requires
        0 <= i <= path.len(),
        i == 0 || path[i - 1] == '/',
        forall|k: int| i <= k < path.len() ==> path[k] != '.' && path[k] != '/',
    ensures
        dot_pos(path) is None,
    decreases path.len(),
{
    if path.len() == 0 {
    } else if i == path.len() {
    } else {
        let prefix = path.take(path.len() - 1);
        assert(forall|k: int| i <= k < prefix.len() ==> prefix[k] == path[k]);
        assert(i == 0 || prefix[i - 1] == path[i - 1]);
        lemma_dot_pos_none(prefix, i);
    }
}

/// Case-insensitive comparison of the path's suffix starting at `start`
/// against an all-lower-case ASCII pattern.
fn suffix_eq_ci(path: &str, start: usize, pat: &str) -> (r: bool)
    requires
        start <= path@.len(),
    ensures
        r == eq_ci(path@.skip(start as int), pat@),
{
    let n = path.unicode_len();
    let m = pat.unicode_len();
    if n - start != m {
        return false;
    }
    let mut j: usize = 0;
    while j < m
        invariant
            n == path@.len(),
            m == pat@.len(),
            start + m == n,
            j <= m,
            forall|k: int| 0 <= k < j ==> matches_ci(#[trigger] path@.skip(start as int)[k], pat@[k]),
        decreases m - j,
    {
        let c = path.get_char(start + j);
        let p = pat.get_char(j);
        let cu = c as u32;
        let pu = p as u32;
        if !(cu == pu || (65 <= cu && cu <= 90 && cu + 32 == pu)) {
            assert(!matches_ci(path@.skip(start as int)[j as int], pat@[j as int]));
            return false;
        }
        assert(matches_ci(path@.skip(start as int)[j as int], pat@[j as int]));
        j += 1;
    }
    true
}

/// The encoder the destination path selects, or None when the path has
/// no usable extension or the extension is not in the table.
pub fn format_for_path(path: &str) -> (r: Option<OutputFormat>)
    ensures
        r == format_of_path(path@),
{
    let n = path.unicode_len();
    let mut i: usize = n;
    while i > 0
        invariant
            i <= n,
            n == path@.len(),
            forall|k: int| i <= k < n ==> path@[k] != '.' && path@[k] != '/',
        decreases i,
    {
        let c = path.get_char(i - 1);
        if c == '/' {
            proof {
                lemma_dot_pos_none(path@, i as int);
            }
            return None;
        }
        if c == '.' {
            proof {
                lemma_dot_pos_some(path@, i - 1);
            }
            if i == 1 {
                return None;
            }
            if path.get_char(i - 2) == '/' {
                return None;
            }
            if i == n {
                return None;
            }
            if suffix_eq_ci(path, i, "png") {
                return Some(OutputFormat::Png);
            }
            if suffix_eq_ci(path, i, "jpg") || suffix_eq_ci(path, i, "jpeg") {
                return Some(OutputFormat::Jpeg);
            }
            if suffix_eq_ci(path, i, "bmp") {
                return Some(OutputFormat::Bmp);
            }
            if suffix_eq_ci(path, i, "gif") {
                return Some(OutputFormat::Gif);
            }
            if suffix_eq_ci(path, i, "ico") {
                return Some(OutputFormat::Ico);
            }
            if suffix_eq_ci(path, i, "tif") || suffix_eq_ci(path, i, "tiff") {
                return Some(OutputFormat::Tiff);
            }
            return None;
        }
        i -= 1;
    }
    proof {
        lemma_dot_pos_none(path@, 0);
    }
    None
}

} // verus!
