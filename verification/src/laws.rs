use vstd::prelude::*;

use crate::metadata::spec_extract;
use crate::organizer::{
    count_all, count_processed, entry_is_media, entry_is_processed, entry_plan_paths, spec_plans,
    Entry,
};
use crate::plan::{
    spec_datetime_dir, spec_datetime_file, spec_untouched_dir, spec_untouched_file,
};
use crate::timestamp::CaptureTimestamp;

verus! {

/// Law: a run archives every file entry and nothing else: one destination
/// plan per file entry.
pub proof fn lemma_one_plan_per_file(es: Seq<Entry>, out: Seq<char>)
    ensures
        spec_plans(es, out).len() == count_all(es),
    decreases es.len(),
{
    if es.len() > 0 {
        lemma_one_plan_per_file(es.drop_last(), out);
    }
}

/// Law: a media entry with a usable capture timestamp is archived at
/// `{root}/{YYYY}/{YYYY}-{MM}/{base name}`, and it raises the processed
/// tally of a run by exactly one.
pub proof fn lemma_timestamped_media_goes_to_bucket(e: Entry, out: Seq<char>, es: Seq<Entry>)
    requires
        entry_is_processed(e),
    ensures
        entry_plan_paths(e, out).0 == spec_datetime_dir(out, spec_extract(e.bytes@)->0),
        entry_plan_paths(e, out).1 == spec_datetime_file(out, spec_extract(e.bytes@)->0, e.path@),
        count_processed(es.push(e)) == count_processed(es) + 1,
{
    assert(es.push(e).drop_last() =~= es);
}

/// Law: a media entry without a usable capture timestamp is archived at
/// its mirrored untouched path, and the processed tally of a run is not
/// raised for it.
pub proof fn lemma_media_without_timestamp_goes_untouched(e: Entry, out: Seq<char>, es: Seq<Entry>)
    requires
        entry_is_media(e),
        spec_extract(e.bytes@) is None,
    ensures
        entry_plan_paths(e, out).0 == spec_untouched_dir(out, e.path@),
        entry_plan_paths(e, out).1 == spec_untouched_file(out, e.path@),
        count_processed(es.push(e)) == count_processed(es),
{
    assert(es.push(e).drop_last() =~= es);
}

/// Law: a file entry classified other is archived at its mirrored
/// untouched path unconditionally, whatever its bytes hold.
pub proof fn lemma_other_goes_untouched(e: Entry, out: Seq<char>, es: Seq<Entry>)
    requires
        !e.is_dir,
        !entry_is_media(e),
    ensures
        entry_plan_paths(e, out).0 == spec_untouched_dir(out, e.path@),
        entry_plan_paths(e, out).1 == spec_untouched_file(out, e.path@),
        count_processed(es.push(e)) == count_processed(es),
{
    assert(es.push(e).drop_last() =~= es);
}

/// The destination file path one file entry is copied to.
pub open spec fn entry_target_file(e: Entry, out: Seq<char>) -> Seq<char> {
    entry_plan_paths(e, out).1
}

/// The destination tree modelled as a map from file path to contents,
/// after one entry is archived: a directory leaves it unchanged, a file is
/// written at its planned path, overwriting what was there.
pub open spec fn apply_entry(
    m: Map<Seq<char>, Seq<u8>>,
    e: Entry,
    out: Seq<char>,
) -> Map<Seq<char>, Seq<u8>> {
    if e.is_dir {
        m
    } else {
        m.insert(entry_target_file(e, out), e.bytes@)
    }
}

/// The destination tree after a whole run archives the entries in order.
pub open spec fn apply_run(
    m: Map<Seq<char>, Seq<u8>>,
    es: Seq<Entry>,
    out: Seq<char>,
) -> Map<Seq<char>, Seq<u8>>
    decreases es.len(),
{
    if es.len() == 0 {
        m
    } else {
        apply_entry(apply_run(m, es.drop_last(), out), es.last(), out)
    }
}

/// A run only adds its own writes on top of the initial tree: its effect
/// is the same set of updates whatever was there before.
proof fn lemma_apply_run_frame(m: Map<Seq<char>, Seq<u8>>, es: Seq<Entry>, out: Seq<char>)
    ensures
        apply_run(m, es, out) == m.union_prefer_right(
            apply_run(Map::<Seq<char>, Seq<u8>>::empty(), es, out),
        ),
    decreases es.len(),
{
    let updates = apply_run(Map::<Seq<char>, Seq<u8>>::empty(), es, out);
    if es.len() == 0 {
        assert(m.union_prefer_right(updates) =~= m);
    } else {
        let prev = es.drop_last();
        let e = es.last();
        lemma_apply_run_frame(m, prev, out);
        let rest = apply_run(Map::<Seq<char>, Seq<u8>>::empty(), prev, out);
        if e.is_dir {
            assert(apply_run(m, es, out) =~= m.union_prefer_right(updates));
        } else {
            assert(m.union_prefer_right(rest).insert(entry_target_file(e, out), e.bytes@)
                =~= m.union_prefer_right(rest.insert(entry_target_file(e, out), e.bytes@)));
        }
    }
}

/// Law: a rerun of the pipeline over the same entries and destination
/// overwrites every destination file with identical contents, so the
/// destination tree after two runs equals the tree after one.
pub proof fn lemma_rerun_idempotent(m: Map<Seq<char>, Seq<u8>>, es: Seq<Entry>, out: Seq<char>)
    ensures
        apply_run(apply_run(m, es, out), es, out) == apply_run(m, es, out),
{
    let updates = apply_run(Map::<Seq<char>, Seq<u8>>::empty(), es, out);
    lemma_apply_run_frame(m, es, out);
    lemma_apply_run_frame(apply_run(m, es, out), es, out);
    assert(m.union_prefer_right(updates).union_prefer_right(updates) =~= m.union_prefer_right(
        updates,
    ));
}

/// Law: the year-month bucket directory is a function of the destination
/// root and the capture year and month alone, so concurrent entries bound
/// for one bucket all derive the identical directory path, and redundant
/// idempotent directory creation cannot conflict.
pub proof fn lemma_same_bucket_same_dir(out: Seq<char>, a: CaptureTimestamp, b: CaptureTimestamp)
    requires
        a.year == b.year,
        a.month == b.month,
    ensures
        spec_datetime_dir(out, a) == spec_datetime_dir(out, b),
{
}

} // verus!
