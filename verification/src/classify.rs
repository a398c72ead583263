use vstd::prelude::*;
use vstd::seq_lib::*;

verus! {

/// The outcome of extension-based classification: a file is either media
/// (its extension is on the fixed allow-list, compared case-insensitively)
/// or other.
#[derive(Clone, Copy, PartialEq, Eq, Structural, Debug)]
pub enum Classification {
    Media,
    Other,
}

/// The scalar value of a character after ASCII lower-casing.
pub open spec fn lower_val(c: char) -> int {
    if 65 <= c as int && c as int <= 90 {
        c as int + 32
    } else {
        c as int
    }
}

/// Two character sequences are equal up to ASCII case.
pub open spec fn ci_seq_eq(a: Seq<char>, b: Seq<char>) -> bool {
    a.len() == b.len() && forall|i: int| 0 <= i < a.len() ==> lower_val(a[i]) == lower_val(b[i])
}

/// Index of the first character of the file name: one past the last `/`,
/// or zero when the path has no separator.
pub open spec fn file_name_start(p: Seq<char>) -> int {
    match p.index_of_last('/') {
        Some(i) => i + 1,
        None => 0,
    }
}

/// The extension of the path's file name: the characters after the last `.`,
/// provided that dot lies inside the file name and is not its first
/// character. A name such as `.config` has no extension.
pub open spec fn spec_extension(p: Seq<char>) -> Option<Seq<char>> {
    match p.index_of_last('.') {
        Some(d) => if d > file_name_start(p) {
            Some(p.subrange(d + 1, p.len() as int))
        } else {
            None
        },
        None => None,
    }
}

/// Membership of an extension in the fixed image/video allow-list, up to
/// ASCII case.
pub open spec fn is_media_ext(e: Seq<char>) -> bool {
    ||| ci_seq_eq(e, "jpg"@)
    ||| ci_seq_eq(e, "jpeg"@)
    ||| ci_seq_eq(e, "png"@)
    ||| ci_seq_eq(e, "gif"@)
    ||| ci_seq_eq(e, "bmp"@)
    ||| ci_seq_eq(e, "tiff"@)
    ||| ci_seq_eq(e, "ico"@)
    ||| ci_seq_eq(e, "heic"@)
    ||| ci_seq_eq(e, "webp"@)
    ||| ci_seq_eq(e, "svg"@)
    ||| ci_seq_eq(e, "raw"@)
    ||| ci_seq_eq(e, "mp4"@)
    ||| ci_seq_eq(e, "mov"@)
    ||| ci_seq_eq(e, "avi"@)
    ||| ci_seq_eq(e, "3gp"@)
    ||| ci_seq_eq(e, "mkv"@)
    ||| ci_seq_eq(e, "flv"@)
    ||| ci_seq_eq(e, "wmv"@)
    ||| ci_seq_eq(e, "mpeg"@)
    ||| ci_seq_eq(e, "webm"@)
}

/// A path classifies as media exactly when it has an extension on the
/// allow-list; a path without an extension is other.
pub open spec fn spec_classify(p: Seq<char>) -> Classification {
    match spec_extension(p) {
        Some(e) => if is_media_ext(e) {
            Classification::Media
        } else {
            Classification::Other
        },
        None => Classification::Other,
    }
}

/// Position of the last occurrence of `ch` in `s`, if any.
pub fn last_index_of_char(s: &str, ch: char) -> (r: Option<usize>)
    ensures
        (match r {
            Some(i) => s@.index_of_last(ch) == Some(i as int),
            None => s@.index_of_last(ch) is None,
        }),
{
    let n = s.unicode_len();
    let mut j = n;
    while j > 0
        invariant
            j <= n,
            n == s@.len(),
            forall|k: int| j <= k < n ==> s@[k] != ch,
        decreases j,
    {
        j = j - 1;
        if s.get_char(j) == ch {
            proof {
                s@.index_of_last_ensures(ch);
            }
            return Some(j);
        }
    }
    proof {
        s@.index_of_last_ensures(ch);
        if s@.index_of_last(ch) is Some {
            let i = s@.index_of_last(ch)->0;
            assert(s@[i] == ch);
            assert(false);
        }
    }
    None
}

/// ASCII lower-casing of one character, by scalar value.
fn lower_char_val(c: char) -> (r: u32)
    ensures
        r == lower_val(c),
{
    let v = c as u32;
    if 65 <= v && v <= 90 {
        v + 32
    } else {
        v
    }
}

/// Case-insensitive (ASCII) equality of two strings.
pub fn str_ci_eq(a: &str, b: &str) -> (r: bool)
    ensures
        r == ci_seq_eq(a@, b@),
{
    let na = a.unicode_len();
    let nb = b.unicode_len();
    if na != nb {
        return false;
    }
    let mut i: usize = 0;
    while i < na
        invariant
            i <= na,
            na == a@.len(),
            nb == b@.len(),
            na == nb,
            forall|k: int| 0 <= k < i ==> lower_val(a@[k]) == lower_val(b@[k]),
        decreases na - i,
    {
        let ca = lower_char_val(a.get_char(i));
        let cb = lower_char_val(b.get_char(i));
        if ca != cb {
            return false;
        }
        i = i + 1;
    }
    true
}

/// Extension of `path`'s file name, if it has one.
pub fn extension_of(path: &str) -> (r: Option<&str>)
    ensures
        (match r {
            Some(e) => spec_extension(path@) == Some(e@),
            None => spec_extension(path@) is None,
        }),
{
    let n = path.unicode_len();
    proof {
        path@.index_of_last_ensures('/');
        path@.index_of_last_ensures('.');
    }
    let sep = last_index_of_char(path, '/');
    let start: usize = match sep {
        Some(i) => i + 1,
        None => 0,
    };
    let dot = last_index_of_char(path, '.');
    match dot {
        Some(d) => if d > start {
            Some(path.substring_char(d + 1, n))
        } else {
            None
        },
        None => None,
    }
}

/// Classifies a path as media or other by its extension, case-insensitively,
/// against the fixed allow-list of image and video extensions.
pub fn classify(path: &str) -> (c: Classification)
    ensures
        c == spec_classify(path@),
{
    match extension_of(path) {
        Some(e) => {
            let is_media = str_ci_eq(e, "jpg") || str_ci_eq(e, "jpeg") || str_ci_eq(e, "png")
                || str_ci_eq(e, "gif") || str_ci_eq(e, "bmp") || str_ci_eq(e, "tiff")
                || str_ci_eq(e, "ico") || str_ci_eq(e, "heic") || str_ci_eq(e, "webp")
                || str_ci_eq(e, "svg") || str_ci_eq(e, "raw") || str_ci_eq(e, "mp4")
                || str_ci_eq(e, "mov") || str_ci_eq(e, "avi") || str_ci_eq(e, "3gp")
                || str_ci_eq(e, "mkv") || str_ci_eq(e, "flv") || str_ci_eq(e, "wmv")
                || str_ci_eq(e, "mpeg") || str_ci_eq(e, "webm");
            if is_media {
                Classification::Media
            } else {
                Classification::Other
            }
        },
        None => Classification::Other,
    }
}

} // verus!
