use vstd::prelude::*;
use vstd::seq_lib::*;

use crate::classify::{file_name_start, last_index_of_char, Classification};
use crate::timestamp::CaptureTimestamp;

verus! {

/// The computed destination of one source file: the directory that must
/// exist and the full file path inside it.
#[derive(Debug)]
pub struct ArchivePlan {
    pub target_dir: String,
    pub target_file: String,
}

/// The destination root without its trailing separators, so that joining
/// never doubles a `/`.
pub open spec fn norm_root(out: Seq<char>) -> Seq<char>
    decreases out.len(),
{
    if out.len() > 0 && out.last() == '/' {
        norm_root(out.drop_last())
    } else {
        out
    }
}

/// The source path without its leading separators: the segments that are
/// mirrored beneath the untouched root.
pub open spec fn strip_leading(p: Seq<char>) -> Seq<char>
    decreases p.len(),
{
    if p.len() > 0 && p[0] == '/' {
        strip_leading(p.drop_first())
    } else {
        p
    }
}

/// The character of one decimal digit.
pub open spec fn spec_digit_char(d: int) -> char {
    if d == 0 {
        '0'
    } else if d == 1 {
        '1'
    } else if d == 2 {
        '2'
    } else if d == 3 {
        '3'
    } else if d == 4 {
        '4'
    } else if d == 5 {
        '5'
    } else if d == 6 {
        '6'
    } else if d == 7 {
        '7'
    } else if d == 8 {
        '8'
    } else {
        '9'
    }
}

/// `n` as four zero-padded decimal digits.
pub open spec fn spec_pad4(n: int) -> Seq<char> {
    seq![
        spec_digit_char((n / 1000) % 10),
        spec_digit_char((n / 100) % 10),
        spec_digit_char((n / 10) % 10),
        spec_digit_char(n % 10),
    ]
}

/// `n` as two zero-padded decimal digits.
pub open spec fn spec_pad2(n: int) -> Seq<char> {
    seq![spec_digit_char((n / 10) % 10), spec_digit_char(n % 10)]
}

/// The file name of a source path: its characters after the last `/`.
pub open spec fn base_name(p: Seq<char>) -> Seq<char> {
    p.subrange(file_name_start(p), p.len() as int)
}

/// The year-month bucket directory for a timestamped media file:
/// `{root}/{YYYY}/{YYYY}-{MM}`.
pub open spec fn spec_datetime_dir(out: Seq<char>, ts: CaptureTimestamp) -> Seq<char> {
    norm_root(out) + "/"@ + spec_pad4(ts.year as int) + "/"@ + spec_pad4(ts.year as int) + "-"@
        + spec_pad2(ts.month as int)
}

/// The destination file path for a timestamped media file: the bucket
/// directory plus the source file's base name.
pub open spec fn spec_datetime_file(out: Seq<char>, ts: CaptureTimestamp, src: Seq<char>) -> Seq<
    char,
> {
    spec_datetime_dir(out, ts) + "/"@ + base_name(src)
}

/// The destination file path in the untouched tree: the source path's
/// segments mirrored verbatim beneath `{root}/untouched`.
pub open spec fn spec_untouched_file(out: Seq<char>, src: Seq<char>) -> Seq<char> {
    norm_root(out) + "/untouched/"@ + strip_leading(src)
}

/// The directory that must exist for the untouched destination: everything
/// up to the mirrored path's last segment.
pub open spec fn spec_untouched_dir(out: Seq<char>, src: Seq<char>) -> Seq<char> {
    match strip_leading(src).index_of_last('/') {
        Some(i) => norm_root(out) + "/untouched/"@ + strip_leading(src).subrange(0, i),
        None => norm_root(out) + "/untouched"@,
    }
}

/// The destination pair (directory, file) for one source file: the
/// year-month bucket when the file is media with a timestamp, the
/// untouched mirror otherwise.
pub open spec fn spec_plan_paths(
    src: Seq<char>,
    out: Seq<char>,
    c: Classification,
    ts: Option<CaptureTimestamp>,
) -> (Seq<char>, Seq<char>) {
    match (c, ts) {
        (Classification::Media, Some(t)) => (spec_datetime_dir(out, t), spec_datetime_file(out, t, src)),
        _ => (spec_untouched_dir(out, src), spec_untouched_file(out, src)),
    }
}

proof fn lemma_norm_root_of(p: Seq<char>, k: int)
    requires
        0 <= k <= p.len(),
        forall|j: int| k <= j < p.len() ==> p[j] == '/',
        k > 0 ==> p[k - 1] != '/',
    ensures
        norm_root(p) == p.subrange(0, k),
    decreases p.len(),
{
    if p.len() == k {
        if p.len() > 0 {
            assert(p.last() != '/');
        }
        assert(p.subrange(0, k) =~= p);
    } else {
        assert(p.last() == '/');
        lemma_norm_root_of(p.drop_last(), k);
        assert(p.drop_last().subrange(0, k) =~= p.subrange(0, k));
    }
}

proof fn lemma_strip_leading_of(p: Seq<char>, k: int)
    requires
        0 <= k <= p.len(),
        forall|j: int| 0 <= j < k ==> p[j] == '/',
        k < p.len() ==> p[k] != '/',
    ensures
        strip_leading(p) == p.subrange(k, p.len() as int),
    decreases p.len(),
{
    if k == 0 {
        assert(p.subrange(0, p.len() as int) =~= p);
    } else {
        assert(p[0] == '/');
        lemma_strip_leading_of(p.drop_first(), k - 1);
        assert(p.drop_first().subrange(k - 1, p.drop_first().len() as int) =~= p.subrange(
            k,
            p.len() as int,
        ));
    }
}

/// The destination root of `out` as a borrowed slice, trailing separators
/// removed.
fn normalized_root(out: &str) -> (r: &str)
    ensures
        r@ == norm_root(out@),
{
    let n = out.unicode_len();
    let mut k = n;
    while k > 0 && out.get_char(k - 1) == '/'
        invariant
            k <= n,
            n == out@.len(),
            forall|j: int| k <= j < n ==> out@[j] == '/',
        decreases k,
    {
        k = k - 1;
    }
    proof {
        lemma_norm_root_of(out@, k as int);
    }
    out.substring_char(0, k)
}

/// The source path of `src` as a borrowed slice, leading separators
/// removed.
fn stripped_source(src: &str) -> (r: &str)
    ensures
        r@ == strip_leading(src@),
{
    let n = src.unicode_len();
    let mut k: usize = 0;
    while k < n && src.get_char(k) == '/'
        invariant
            k <= n,
            n == src@.len(),
            forall|j: int| 0 <= j < k ==> src@[j] == '/',
        decreases n - k,
    {
        k = k + 1;
    }
    proof {
        lemma_strip_leading_of(src@, k as int);
    }
    src.substring_char(k, n)
}

/// One decimal digit as a string.
fn digit_str(d: u32) -> (s: &'static str)
    requires
        d < 10,
    ensures
        s@ == seq![spec_digit_char(d as int)],
{
    proof {
        reveal_strlit("0");
        reveal_strlit("1");
        reveal_strlit("2");
        reveal_strlit("3");
        reveal_strlit("4");
        reveal_strlit("5");
        reveal_strlit("6");
        reveal_strlit("7");
        reveal_strlit("8");
        reveal_strlit("9");
    }
    if d == 0 {
        "0"
    } else if d == 1 {
        "1"
    } else if d == 2 {
        "2"
    } else if d == 3 {
        "3"
    } else if d == 4 {
        "4"
    } else if d == 5 {
        "5"
    } else if d == 6 {
        "6"
    } else if d == 7 {
        "7"
    } else if d == 8 {
        "8"
    } else {
        "9"
    }
}

/// `n` as four zero-padded decimal digits.
fn pad4(n: u32) -> (r: String)
    ensures
        r@ == spec_pad4(n as int),
{
    let mut s = String::from_str(digit_str((n / 1000) % 10));
    s.append(digit_str((n / 100) % 10));
    s.append(digit_str((n / 10) % 10));
    s.append(digit_str(n % 10));
    proof {
        assert(s@ =~= spec_pad4(n as int));
    }
    s
}

/// `n` as two zero-padded decimal digits.
fn pad2(n: u32) -> (r: String)
    ensures
        r@ == spec_pad2(n as int),
{
    let mut s = String::from_str(digit_str((n / 10) % 10));
    s.append(digit_str(n % 10));
    proof {
        assert(s@ =~= spec_pad2(n as int));
    }
    s
}

/// The year-month bucket paths for a timestamped media file.
fn plan_datetime(src: &str, out: &str, ts: &CaptureTimestamp) -> (p: ArchivePlan)
    ensures
        p.target_dir@ == spec_datetime_dir(out@, *ts),
        p.target_file@ == spec_datetime_file(out@, *ts, src@),
{
    let year = pad4(ts.year);
    let month = pad2(ts.month);
    let mut dir = String::from_str(normalized_root(out));
    dir.append("/");
    dir.append(year.as_str());
    dir.append("/");
    dir.append(year.as_str());
    dir.append("-");
    dir.append(month.as_str());

    let n = src.unicode_len();
    proof {
        src@.index_of_last_ensures('/');
    }
    let start: usize = match last_index_of_char(src, '/') {
        Some(i) => i + 1,
        None => 0,
    };
    let mut file = dir.clone();
    file.append("/");
    file.append(src.substring_char(start, n));
    proof {
        assert(dir@ =~= spec_datetime_dir(out@, *ts));
        assert(file@ =~= spec_datetime_file(out@, *ts, src@));
    }
    ArchivePlan { target_dir: dir, target_file: file }
}

/// The untouched-tree paths for a file without a usable timestamp.
fn plan_untouched(src: &str, out: &str) -> (p: ArchivePlan)
    ensures
        p.target_dir@ == spec_untouched_dir(out@, src@),
        p.target_file@ == spec_untouched_file(out@, src@),
{
    proof {
        reveal_strlit("/untouched");
        reveal_strlit("/untouched/");
        reveal_strlit("/");
    }
    let stripped = stripped_source(src);
    proof {
        stripped@.index_of_last_ensures('/');
    }
    let mut dir = String::from_str(normalized_root(out));
    dir.append("/untouched");
    let mut file = dir.clone();
    file.append("/");
    file.append(stripped);
    match last_index_of_char(stripped, '/') {
        Some(i) => {
            dir.append("/");
            dir.append(stripped.substring_char(0, i));
        },
        None => {},
    }
    proof {
        assert(file@ =~= spec_untouched_file(out@, src@));
        assert(dir@ =~= spec_untouched_dir(out@, src@));
    }
    ArchivePlan { target_dir: dir, target_file: file }
}

/// Computes the destination of one source file from its classification and
/// optional capture timestamp: the `{root}/{YYYY}/{YYYY}-{MM}` bucket for
/// media with a timestamp, the mirrored `{root}/untouched/...` path for
/// everything else.
pub fn plan(
    source: &str,
    output: &str,
    c: Classification,
    ts: Option<CaptureTimestamp>,
) -> (p: ArchivePlan)
    ensures
        p.target_dir@ == spec_plan_paths(source@, output@, c, ts).0,
        p.target_file@ == spec_plan_paths(source@, output@, c, ts).1,
{
    match (c, ts) {
        (Classification::Media, Some(t)) => plan_datetime(source, output, &t),
        _ => plan_untouched(source, output),
    }
}

} // verus!
