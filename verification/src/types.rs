use vstd::prelude::*;

verus! {

/// The kind of data a stream carries.  Remote-storage metric queries run
/// against metric streams; the other kinds exist so that stream identity
/// is a complete triple and file metadata can record it.
#[derive(Clone, Copy, PartialEq, Eq, Structural, Debug)]
pub enum StreamType {
    Metrics,
    Logs,
    Traces,
}

/// Identity of one logical data stream: organization, stream name and kind.
#[derive(Clone, Debug)]
pub struct StreamParams {
    pub org_id: String,
    pub stream_name: String,
    pub stream_type: StreamType,
}

/// A time window in microseconds since the Unix epoch, inclusive at both
/// ends.  A well-formed range never ends before it starts.
#[derive(Clone, Copy, PartialEq, Eq, Structural, Debug)]
pub struct TimeRange {
    pub start: i64,
    pub end: i64,
}

impl TimeRange {
    /// A range is well formed when it does not end before it starts.
    pub open spec fn wf(self) -> bool {
        self.start <= self.end
    }

    pub fn new(start: i64, end: i64) -> (r: TimeRange)
        requires
            start <= end,
        ensures
            r.start == start,
            r.end == end,
            r.wf(),
    {
        TimeRange { start, end }
    }
}

/// One equality constraint `label == value` supplied by a query.  Filters
/// are used only to prune irrelevant files; the evaluation engine remains
/// responsible for final correctness.
#[derive(Clone, Debug)]
pub struct LabelFilter {
    pub label: String,
    pub value: String,
}

/// A reference to one stored data file, together with enough embedded
/// metadata for the relevance check to decide without opening the file:
/// the owning stream, the time bounds of the rows inside, the stored size,
/// a schema version hint, and the partition label values recorded when the
/// file was written.
#[derive(Clone, Debug)]
pub struct FileEntry {
    pub name: String,
    pub org_id: String,
    pub stream_name: String,
    pub stream_type: StreamType,
    pub time_min: i64,
    pub time_max: i64,
    pub size: u64,
    pub schema_version: u32,
    pub labels: Vec<LabelFilter>,
}

impl FileEntry {
    /// File metadata is well formed when its time bounds are ordered.
    pub open spec fn wf(self) -> bool {
        self.time_min <= self.time_max
    }
}

/// Named configuration for the relevance check.  The check takes two
/// options whose meaning is fixed here:
///
/// * `min_ts_only`: when set, a file is relevant only if its earliest
///   timestamp falls inside the query range; when clear, any overlap of
///   the file's time bounds with the range suffices.
/// * `require_filter_labels`: when set, every query filter must be echoed
///   by an equal label recorded on the file; when clear, a file is pruned
///   only when one of its recorded labels contradicts a filter.
#[derive(Clone, Copy, PartialEq, Eq, Structural, Debug)]
pub struct MatchOptions {
    pub min_ts_only: bool,
    pub require_filter_labels: bool,
}

/// Storage format of a bound table's backing files.
#[derive(Clone, Copy, PartialEq, Eq, Structural, Debug)]
pub enum FileFormat {
    Parquet,
    Json,
}

/// The evaluation engine's result as this core carries it: either the
/// distinguished no-data value or an engine-native payload, opaque here.
#[derive(Clone, PartialEq, Eq, Debug)]
pub enum Value {
    Empty,
    Payload(String),
}

/// Failure of one file fetch, naming the file and the collaborator's message.
#[derive(Clone, PartialEq, Eq, Debug)]
pub struct LoadError {
    pub file_name: String,
    pub message: String,
}

/// Failure to register a table: the session already holds a table under
/// this name.
#[derive(Clone, PartialEq, Eq, Debug)]
pub struct BindError {
    pub table_name: String,
}

/// Every terminal failure of one query, tagged by the stage that raised it.
#[derive(Clone, PartialEq, Eq, Debug)]
pub enum SearchError {
    /// The query text was rejected by the parser; carries its message.
    Parse(String),
    /// The metadata index was unreachable or reported an error.
    FileList(String),
    /// At least one file fetch failed; carries the first failure seen.
    Load(LoadError),
    /// The stream's schema was missing or unfetchable.
    Schema(String),
    /// Table registration failed.
    Bind(BindError),
    /// The evaluation engine reported a failure.
    Execution(String),
}

} // verus!
