use vstd::prelude::*;

use crate::types::{FileEntry, LabelFilter, MatchOptions, StreamParams, TimeRange};

verus! {

/// One recorded label is compatible with one filter when it either names
/// a different label or carries the filter's value.
pub open spec fn spec_label_compatible(l: LabelFilter, f: LabelFilter) -> bool {
    l.label@ == f.label@ ==> l.value@ == f.value@
}

/// One recorded label satisfies one filter exactly.
pub open spec fn spec_label_equal(l: LabelFilter, f: LabelFilter) -> bool {
    l.label@ == f.label@ && l.value@ == f.value@
}

/// Whether a file's recorded labels are acceptable for one filter.  With
/// `echo_all` set the filter must be echoed by an equal recorded label;
/// with `echo_all` clear the file survives unless a recorded label
/// contradicts the filter.
pub open spec fn spec_filter_ok(labels: Seq<LabelFilter>, f: LabelFilter, echo_all: bool) -> bool {
    if echo_all {
        exists|j: int| 0 <= j < labels.len() && #[trigger] spec_label_equal(labels[j], f)
    } else {
        forall|j: int| 0 <= j < labels.len() ==> #[trigger] spec_label_compatible(labels[j], f)
    }
}

/// Whether a file's recorded labels are acceptable for every filter.
pub open spec fn spec_labels_ok(
    labels: Seq<LabelFilter>,
    filters: Seq<LabelFilter>,
    echo_all: bool,
) -> bool {
    forall|i: int| 0 <= i < filters.len() ==> #[trigger] spec_filter_ok(labels, filters[i], echo_all)
}

/// Whether a file's time bounds make it relevant to the queried range.
/// With `min_ts_only` set, the file's earliest timestamp must fall inside
/// the range; otherwise any overlap of the bounds with the range suffices.
pub open spec fn spec_time_overlap(range: TimeRange, file: FileEntry, min_ts_only: bool) -> bool {
    if min_ts_only {
        range.start <= file.time_min <= range.end
    } else {
        file.time_min <= range.end && range.start <= file.time_max
    }
}

/// The relevance check: a candidate file is kept exactly when it belongs
/// to the queried stream, its time bounds are relevant to the queried
/// range, and its recorded labels are acceptable for every filter.  The
/// check reads embedded metadata only; no file is opened.
pub open spec fn spec_file_matches(
    stream: StreamParams,
    range: TimeRange,
    filters: Seq<LabelFilter>,
    file: FileEntry,
    opts: MatchOptions,
) -> bool {
    &&& file.org_id@ == stream.org_id@
    &&& file.stream_name@ == stream.stream_name@
    &&& file.stream_type == stream.stream_type
    &&& spec_time_overlap(range, file, opts.min_ts_only)
    &&& spec_labels_ok(file.labels@, filters, opts.require_filter_labels)
}

/// Decide whether a file's recorded labels are acceptable for one filter.
#[verifier::loop_isolation(false)]
fn filter_ok(labels: &Vec<LabelFilter>, f: &LabelFilter, echo_all: bool) -> (r: bool)
    ensures
        r == spec_filter_ok(labels@, *f, echo_all),
{
    if echo_all {
        let mut j: usize = 0;
        while j < labels.len()
            invariant
                j <= labels.len(),
                forall|k: int| 0 <= k < j ==> !#[trigger] spec_label_equal(labels@[k], *f),
            decreases labels.len() - j,
        {
            if labels[j].label == f.label && labels[j].value == f.value {
                assert(spec_label_equal(labels@[j as int], *f));
                return true;
            }
            j += 1;
        }
        false
    } else {
        let mut j: usize = 0;
        while j < labels.len()
            invariant
                j <= labels.len(),
                forall|k: int| 0 <= k < j ==> #[trigger] spec_label_compatible(labels@[k], *f),
            decreases labels.len() - j,
        {
            if labels[j].label == f.label && !(labels[j].value == f.value) {
                assert(!spec_label_compatible(labels@[j as int], *f));
                return false;
            }
            j += 1;
        }
        true
    }
}

/// Decide the relevance check for one candidate file.
#[verifier::loop_isolation(false)]
pub fn file_matches(
    stream: &StreamParams,
    range: TimeRange,
    filters: &Vec<LabelFilter>,
    file: &FileEntry,
    opts: MatchOptions,
) -> (r: bool)
    ensures
        r == spec_file_matches(*stream, range, filters@, *file, opts),
{
    if !(file.org_id == stream.org_id) {
        return false;
    }
    if !(file.stream_name == stream.stream_name) {
        return false;
    }
    if !(file.stream_type == stream.stream_type) {
        return false;
    }
    if opts.min_ts_only {
        if !(range.start <= file.time_min && file.time_min <= range.end) {
            return false;
        }
    } else {
        if !(file.time_min <= range.end && range.start <= file.time_max) {
            return false;
        }
    }
    let mut i: usize = 0;
    while i < filters.len()
        invariant
            i <= filters.len(),
            forall|k: int| 0 <= k < i ==> #[trigger] spec_filter_ok(
                file.labels@,
                filters@[k],
                opts.require_filter_labels,
            ),
        decreases filters.len() - i,
    {
        if !filter_ok(&file.labels, &filters[i], opts.require_filter_labels) {
            return false;
        }
        i += 1;
    }
    true
}

/// The surviving candidates in stable order: each file of `s` that passes
/// the relevance check, kept in index order.
pub open spec fn spec_filtered(
    stream: StreamParams,
    range: TimeRange,
    filters: Seq<LabelFilter>,
    opts: MatchOptions,
    s: Seq<FileEntry>,
) -> Seq<FileEntry>
    decreases s.len(),
{
    if s.len() == 0 {
        Seq::empty()
    } else {
        let rest = spec_filtered(stream, range, filters, opts, s.drop_last());
        if spec_file_matches(stream, range, filters, s.last(), opts) {
            rest.push(s.last())
        } else {
            rest
        }
    }
}

/// Law: the resolved set is exactly the relevant part of the candidates.
/// Every kept file passes the relevance check and comes from the
/// candidate list, and every candidate that passes the check is kept; so
/// a candidate list the index handed over deduplicated stays
/// deduplicated.
pub proof fn lemma_filtered_exact(
    stream: StreamParams,
    range: TimeRange,
    filters: Seq<LabelFilter>,
    opts: MatchOptions,
    s: Seq<FileEntry>,
)
    ensures
        forall|i: int|
            0 <= i < spec_filtered(stream, range, filters, opts, s).len() ==> spec_file_matches(
                stream,
                range,
                filters,
                #[trigger] spec_filtered(stream, range, filters, opts, s)[i],
                opts,
            ) && s.contains(spec_filtered(stream, range, filters, opts, s)[i]),
        forall|i: int|
            0 <= i < s.len() && spec_file_matches(stream, range, filters, #[trigger] s[i], opts)
                ==> spec_filtered(stream, range, filters, opts, s).contains(s[i]),
    decreases s.len(),
{
    if s.len() > 0 {
        lemma_filtered_exact(stream, range, filters, opts, s.drop_last());
        let prev = spec_filtered(stream, range, filters, opts, s.drop_last());
        let kept = spec_filtered(stream, range, filters, opts, s);
        assert forall|i: int| 0 <= i < kept.len() implies spec_file_matches(
            stream,
            range,
            filters,
            kept[i],
            opts,
        ) && s.contains(kept[i]) by {
            if spec_file_matches(stream, range, filters, s.last(), opts) && i == kept.len() - 1 {
                assert(kept[i] == s.last());
                assert(s[s.len() - 1] == kept[i]);
            } else {
                assert(kept[i] == prev[i]);
                let j = choose|j: int| 0 <= j < s.drop_last().len() && s.drop_last()[j] == prev[i];
                assert(s[j] == kept[i]);
            }
        }
        assert forall|i: int|
            0 <= i < s.len() && spec_file_matches(stream, range, filters, s[i], opts) implies kept
            .contains(s[i]) by {
            if i == s.len() - 1 {
                assert(kept[kept.len() - 1] == s[i]);
            } else {
                assert(s.drop_last()[i] == s[i]);
                assert(prev.contains(s[i]));
                let j = choose|j: int| 0 <= j < prev.len() && prev[j] == s[i];
                assert(kept[j] == s[i]);
            }
        }
    }
}

/// Apply the relevance check to every candidate the metadata index
/// returned, keeping the survivors in index order.
#[verifier::loop_isolation(false)]
pub fn filter_file_list(
    stream: &StreamParams,
    range: TimeRange,
    filters: &Vec<LabelFilter>,
    opts: MatchOptions,
    candidates: Vec<FileEntry>,
) -> (r: Vec<FileEntry>)
    ensures
        r@ == spec_filtered(*stream, range, filters@, opts, candidates@),
{
    let ghost orig: Seq<FileEntry> = candidates@;
    let mut rest: Vec<FileEntry> = candidates;
    let mut out: Vec<FileEntry> = Vec::new();
    let ghost mut done: Seq<FileEntry> = Seq::empty();
    while rest.len() > 0
        invariant
            orig == done + rest@,
            out@ == spec_filtered(*stream, range, filters@, opts, done),
        decreases rest@.len(),
    {
        let ghost before: Seq<FileEntry> = rest@;
        let f = rest.remove(0);
        let matched = file_matches(stream, range, filters, &f, opts);
        proof {
            assert(done.push(f).drop_last() =~= done);
            assert(done.push(f) + rest@ =~= done + before);
            done = done.push(f);
        }
        if matched {
            out.push(f);
        }
    }
    proof {
        assert(done =~= orig);
    }
    out
}

} // verus!
