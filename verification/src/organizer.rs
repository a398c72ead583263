use vstd::prelude::*;

use crate::classify::{classify, spec_classify, Classification};
use crate::counter::{Counter, Counters};
use crate::metadata::{extract_timestamp, spec_extract};
use crate::plan::{plan, spec_plan_paths, ArchivePlan};

verus! {

/// One filesystem node found by enumeration: its path, whether it is a
/// directory, and (for files) its contents, from which embedded metadata
/// is read.
pub struct Entry {
    pub path: String,
    pub is_dir: bool,
    pub bytes: Vec<u8>,
}

/// Whether an entry is a file classified as media.
pub open spec fn entry_is_media(e: Entry) -> bool {
    !e.is_dir && spec_classify(e.path@) == Classification::Media
}

/// Whether an entry is archived through the year-month branch: a media
/// file whose bytes hold a usable capture timestamp.
pub open spec fn entry_is_processed(e: Entry) -> bool {
    entry_is_media(e) && spec_extract(e.bytes@) is Some
}

/// The destination pair (directory, file) of one file entry.
pub open spec fn entry_plan_paths(e: Entry, out: Seq<char>) -> (Seq<char>, Seq<char>) {
    spec_plan_paths(e.path@, out, spec_classify(e.path@), spec_extract(e.bytes@))
}

/// Number of file entries.
pub open spec fn count_all(es: Seq<Entry>) -> nat
    decreases es.len(),
{
    if es.len() == 0 {
        0
    } else {
        count_all(es.drop_last()) + (if !es.last().is_dir {
            1nat
        } else {
            0nat
        })
    }
}

/// Number of file entries classified as media.
pub open spec fn count_media(es: Seq<Entry>) -> nat
    decreases es.len(),
{
    if es.len() == 0 {
        0
    } else {
        count_media(es.drop_last()) + (if entry_is_media(es.last()) {
            1nat
        } else {
            0nat
        })
    }
}

/// Number of file entries classified as other.
pub open spec fn count_other(es: Seq<Entry>) -> nat
    decreases es.len(),
{
    if es.len() == 0 {
        0
    } else {
        count_other(es.drop_last()) + (if !es.last().is_dir && !entry_is_media(es.last()) {
            1nat
        } else {
            0nat
        })
    }
}

/// Number of file entries archived through the year-month branch.
pub open spec fn count_processed(es: Seq<Entry>) -> nat
    decreases es.len(),
{
    if es.len() == 0 {
        0
    } else {
        count_processed(es.drop_last()) + (if entry_is_processed(es.last()) {
            1nat
        } else {
            0nat
        })
    }
}

/// The destination pairs of the file entries, in order.
pub open spec fn spec_plans(es: Seq<Entry>, out: Seq<char>) -> Seq<(Seq<char>, Seq<char>)>
    decreases es.len(),
{
    if es.len() == 0 {
        Seq::empty()
    } else if !es.last().is_dir {
        spec_plans(es.drop_last(), out).push(entry_plan_paths(es.last(), out))
    } else {
        spec_plans(es.drop_last(), out)
    }
}

/// The paths of the file entries that fall back to the untouched tree, in
/// order: entries classified other, and media entries without a usable
/// timestamp.
pub open spec fn spec_fallback(es: Seq<Entry>) -> Seq<Seq<char>>
    decreases es.len(),
{
    if es.len() == 0 {
        Seq::empty()
    } else if !es.last().is_dir && !entry_is_processed(es.last()) {
        spec_fallback(es.drop_last()).push(es.last().path@)
    } else {
        spec_fallback(es.drop_last())
    }
}

/// The destination pairs held by a vector of plans.
pub open spec fn plans_view(ps: Seq<ArchivePlan>) -> Seq<(Seq<char>, Seq<char>)> {
    ps.map_values(|p: ArchivePlan| (p.target_dir@, p.target_file@))
}

/// Bounds and the media/other partition of the tallies of an entry list.
pub proof fn lemma_count_bounds(es: Seq<Entry>)
    ensures
        count_all(es) <= es.len(),
        count_media(es) <= count_all(es),
        count_processed(es) <= count_media(es),
    decreases es.len(),
{
    if es.len() > 0 {
        lemma_count_bounds(es.drop_last());
    }
}

/// Law: every file entry is classified either media or other, so the total
/// tally of a run equals the media tally plus the number of entries
/// classified other.
pub proof fn lemma_all_is_media_plus_other(es: Seq<Entry>)
    ensures
        count_all(es) == count_media(es) + count_other(es),
    decreases es.len(),
{
    if es.len() > 0 {
        lemma_all_is_media_plus_other(es.drop_last());
    }
}

/// The paths that fell back to the untouched tree during a run, for the
/// end-of-run report.
pub struct List {
    pub non_media_paths: Vec<String>,
}

/// One run of the pipeline: the input and destination roots, the run's
/// tallies, and the accumulated fallback report.
pub struct Organizer {
    pub counter: Counter,
    pub input: String,
    pub output: String,
    pub list: List,
}

impl Organizer {
    /// The paths accumulated for the fallback report.
    pub open spec fn fallback_paths(self) -> Seq<Seq<char>> {
        self.list.non_media_paths.deep_view()
    }

    /// The tallies never cross: processed entries are media entries, and
    /// media entries are counted entries.
    pub open spec fn wf(self) -> bool {
        self.counter.spec_get(Counters::Processed) <= self.counter.spec_get(Counters::Media)
            <= self.counter.spec_get(Counters::All)
    }

    /// A fresh run over the given input and destination roots, with all
    /// tallies zero and an empty fallback report.
    pub fn new(input: &str, output: &str) -> (o: Organizer)
        ensures
            o.wf(),
            o.counter.spec_get(Counters::All) == 0,
            o.counter.spec_get(Counters::Media) == 0,
            o.counter.spec_get(Counters::Processed) == 0,
            o.input@ == input@,
            o.output@ == output@,
            o.fallback_paths() == Seq::<Seq<char>>::empty(),
    {
        let o = Organizer {
            counter: Counter::new(),
            input: String::from_str(input),
            output: String::from_str(output),
            list: List { non_media_paths: Vec::new() },
        };
        proof {
            assert(o.fallback_paths() =~= Seq::<Seq<char>>::empty());
        }
        o
    }

    /// Processes one file entry: classifies it, extracts a capture
    /// timestamp when it is media, computes its destination, and advances
    /// the tallies — `All` always, `Media` for media, `Processed` exactly
    /// when the file goes to a year-month bucket. A file not processed is
    /// added to the fallback report.
    pub fn process_file(&mut self, path: &str, bytes: &Vec<u8>) -> (p: ArchivePlan)
        requires
            old(self).wf(),
            old(self).counter.spec_get(Counters::All) < usize::MAX,
        ensures
            final(self).wf(),
            final(self).input == old(self).input,
            final(self).output == old(self).output,
            final(self).counter.spec_get(Counters::All) == old(self).counter.spec_get(
                Counters::All,
            ) + 1,
            final(self).counter.spec_get(Counters::Media) == old(self).counter.spec_get(
                Counters::Media,
            ) + (if spec_classify(path@) == Classification::Media {
                1int
            } else {
                0int
            }),
            final(self).counter.spec_get(Counters::Processed) == old(self).counter.spec_get(
                Counters::Processed,
            ) + (if spec_classify(path@) == Classification::Media && spec_extract(bytes@) is Some {
                1int
            } else {
                0int
            }),
            p.target_dir@ == spec_plan_paths(
                path@,
                old(self).output@,
                spec_classify(path@),
                spec_extract(bytes@),
            ).0,
            p.target_file@ == spec_plan_paths(
                path@,
                old(self).output@,
                spec_classify(path@),
                spec_extract(bytes@),
            ).1,
            final(self).fallback_paths() == (if spec_classify(path@) == Classification::Media
                && spec_extract(bytes@) is Some {
                old(self).fallback_paths()
            } else {
                old(self).fallback_paths().push(path@)
            }),
    {
        let c = classify(path);
        self.counter.increment(Counters::All);
        match c {
            Classification::Media => {
                self.counter.increment(Counters::Media);
                match extract_timestamp(bytes) {
                    Some(ts) => {
                        self.counter.increment(Counters::Processed);
                        plan(path, self.output.as_str(), c, Some(ts))
                    },
                    None => {
                        self.list.non_media_paths.push(String::from_str(path));
                        proof {
                            assert(self.fallback_paths() =~= old(self).fallback_paths().push(
                                path@,
                            ));
                        }
                        plan(path, self.output.as_str(), c, None)
                    },
                }
            },
            Classification::Other => {
                self.list.non_media_paths.push(String::from_str(path));
                proof {
                    assert(self.fallback_paths() =~= old(self).fallback_paths().push(path@));
                }
                plan(path, self.output.as_str(), c, None)
            },
        }
    }

    /// Drives one run over a pre-enumerated entry list: directories are
    /// skipped, every file entry is classified, planned and tallied, and
    /// the destination plans are returned in order.
    pub fn walk_dir(&mut self, entries: &Vec<Entry>) -> (plans: Vec<ArchivePlan>)
        requires
            old(self).wf(),
            old(self).counter.spec_get(Counters::All) + entries@.len() <= usize::MAX,
        ensures
            final(self).wf(),
            final(self).input == old(self).input,
            final(self).output == old(self).output,
            final(self).counter.spec_get(Counters::All) == old(self).counter.spec_get(
                Counters::All,
            ) + count_all(entries@),
            final(self).counter.spec_get(Counters::Media) == old(self).counter.spec_get(
                Counters::Media,
            ) + count_media(entries@),
            final(self).counter.spec_get(Counters::Processed) == old(self).counter.spec_get(
                Counters::Processed,
            ) + count_processed(entries@),
            plans_view(plans@) == spec_plans(entries@, old(self).output@),
            final(self).fallback_paths() == old(self).fallback_paths() + spec_fallback(entries@),
    {
        let mut plans: Vec<ArchivePlan> = Vec::new();
        let n = entries.len();
        proof {
            assert(entries@.take(0) =~= Seq::<Entry>::empty());
            assert(plans_view(plans@) =~= spec_plans(entries@.take(0), old(self).output@));
            assert(old(self).fallback_paths() + spec_fallback(entries@.take(0)) =~= old(
                self,
            ).fallback_paths());
        }
        let mut i: usize = 0;
        while i < n
            invariant
                i <= n,
                n == entries@.len(),
                self.wf(),
                self.input == old(self).input,
                self.output == old(self).output,
                old(self).counter.spec_get(Counters::All) + entries@.len() <= usize::MAX,
                self.counter.spec_get(Counters::All) == old(self).counter.spec_get(Counters::All)
                    + count_all(entries@.take(i as int)),
                self.counter.spec_get(Counters::Media) == old(self).counter.spec_get(
                    Counters::Media,
                ) + count_media(entries@.take(i as int)),
                self.counter.spec_get(Counters::Processed) == old(self).counter.spec_get(
                    Counters::Processed,
                ) + count_processed(entries@.take(i as int)),
                plans_view(plans@) == spec_plans(entries@.take(i as int), old(self).output@),
                self.fallback_paths() == old(self).fallback_paths() + spec_fallback(
                    entries@.take(i as int),
                ),
            decreases n - i,
        {
            proof {
                lemma_count_bounds(entries@.take(i as int));
            }
            let e = &entries[i];
            if !e.is_dir {
                let p = self.process_file(e.path.as_str(), &e.bytes);
                plans.push(p);
            }
            proof {
                let prefix = entries@.take(i as int);
                let next = entries@.take(i + 1);
                assert(next.drop_last() =~= prefix);
                assert(next.last() == entries@[i as int]);
                assert(plans_view(plans@) =~= spec_plans(next, old(self).output@));
                assert(self.fallback_paths() =~= old(self).fallback_paths() + spec_fallback(next));
            }
            i = i + 1;
        }
        proof {
            assert(entries@.take(n as int) =~= entries@);
        }
        plans
    }

    /// The paths that fell back to the untouched tree, for the end-of-run
    /// report.
    pub fn non_media_paths(&self) -> (r: &Vec<String>)
        ensures
            r.deep_view() == self.fallback_paths(),
    {
        &self.list.non_media_paths
    }
}

} // verus!
