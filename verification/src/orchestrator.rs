use vstd::prelude::*;

use crate::resolver::{filter_file_list, spec_filtered};
use crate::schema::{resolve_schema, Schema};
use crate::session::TableHandle;
use crate::types::{
    BindError, FileEntry, LabelFilter, LoadError, MatchOptions, SearchError, StreamParams,
    StreamType, TimeRange, Value,
};

verus! {

#[verifier::external_type_specification]
#[verifier::external_body]
pub struct ExExpr(promql_parser::parser::Expr);

/// Relies on promql_parser::parser::parse: builds the abstract syntax
/// tree of the query text, or reports why the text was rejected.  The
/// tree is carried opaquely, and since the grammar can be widened at run
/// time through the crate's process-wide table of extra functions,
/// nothing ties the outcome to the text alone; `open_run` states exactly
/// what becomes of each outcome.
#[verifier::external_body]
fn parse_promql(query: &str) -> (r: Result<promql_parser::parser::Expr, String>) {
    promql_parser::parser::parse(query)
}

/// The fixed lookback window for range-vector selection, in microseconds:
/// five minutes, a policy constant rather than a per-query setting.
pub const LOOKBACK_DELTA_MICROS: i64 = 300_000_000;

/// One metric query as the caller hands it over: the query text plus
/// start, end and step in microseconds since the Unix epoch.
#[derive(Clone, Debug)]
pub struct MetricsQuery {
    pub query: String,
    pub start: i64,
    pub end: i64,
    pub step: i64,
}

/// The bound form of a parsed query: its syntax tree together with the
/// absolute time window, the evaluation interval, and the fixed lookback
/// window, all in microseconds.
pub struct EvalStmt {
    pub expr: promql_parser::parser::Expr,
    pub start: i64,
    pub end: i64,
    pub interval: i64,
    pub lookback_delta: i64,
}

/// Where one query run stands.
#[derive(Clone, Copy, PartialEq, Eq, Structural, Debug)]
pub enum Phase {
    /// The evaluation engine is running; it may request a bound table or
    /// finish with a result.
    Evaluating,
    /// Waiting for the metadata index's candidate file list.
    Resolving,
    /// Waiting for the cache-load operation over the resolved files.
    Loading,
    /// Waiting for the stream's registered schema.
    FetchingSchema,
    /// Waiting for the table registration.
    Binding,
    /// The outcome is fixed; waiting for the session to be torn down.
    Cleanup,
    /// The session is cleared and the outcome may be taken.
    Finished,
}

/// What a collaborator reported back to the run.
pub enum Event {
    /// The engine asks for a stream's bound table: the stream name, the
    /// selector's absolute time range in microseconds, and its label
    /// filters.
    ContextRequested { stream_name: String, start: i64, end: i64, filters: Vec<LabelFilter> },
    /// The metadata index answered with candidate files, or failed.
    FileList(Result<Vec<FileEntry>, String>),
    /// The cache-load operation over the resolved files completed.
    Loaded(Result<(), LoadError>),
    /// The schema registry answered, or failed.
    SchemaFetched(Result<Schema, String>),
    /// The table registration completed.
    Bound(Result<TableHandle, BindError>),
    /// The engine finished with a result value, or failed.
    Evaluated(Result<Value, String>),
    /// The session's registered state has been torn down.
    Cleared,
}

/// What the driver must do next on the run's behalf.
#[derive(Clone, Copy, PartialEq, Eq, Structural, Debug)]
pub enum Action {
    /// Ask the metadata index for candidate files of the current stream
    /// and range, then report `FileList`.
    ListFiles,
    /// Run the bounded cache-load over the resolved files, then report
    /// `Loaded`.
    LoadFiles,
    /// Fetch the stream's schema, then report `SchemaFetched`.
    FetchSchema,
    /// Register the resolved files and schema as the session's table,
    /// then report `Bound`.
    BindTable,
    /// Hand the bound table to the engine and resume it; report
    /// `ContextRequested` again or `Evaluated`.
    Evaluate,
    /// Tear down the session's registered state, then report `Cleared`.
    ClearSession,
    /// The run is over; take the outcome.
    Finish,
}

/// Which events a run in a given phase can take.
pub open spec fn spec_accepts(phase: Phase, ev: Event) -> bool {
    match ev {
        Event::ContextRequested { .. } => phase is Evaluating,
        Event::FileList(_) => phase is Resolving,
        Event::Loaded(_) => phase is Loading,
        Event::SchemaFetched(_) => phase is FetchingSchema,
        Event::Bound(_) => phase is Binding,
        Event::Evaluated(_) => phase is Evaluating,
        Event::Cleared => phase is Cleanup,
    }
}

/// A context request must carry an ordered time range.
pub open spec fn spec_event_wf(ev: Event) -> bool {
    match ev {
        Event::ContextRequested { start, end, .. } => start <= end,
        _ => true,
    }
}

/// One query invocation driven from parse to teardown.  The run makes
/// every decision; its driver performs the suspending collaborator calls
/// and reports each completion through `step`.
pub struct QueryRun {
    /// The identifier scoping every table registration of this run.
    pub session_id: String,
    /// The stream under evaluation; the name is set by the engine's
    /// context request.
    pub stream: StreamParams,
    /// The query's own time window.
    pub range: TimeRange,
    /// The current selector's time window, as the engine asked.
    pub ctx_range: TimeRange,
    /// The current selector's label filters.
    pub filters: Vec<LabelFilter>,
    /// The relevance-check configuration of this run.
    pub opts: MatchOptions,
    /// The bound evaluation statement.
    pub stmt: EvalStmt,
    /// The resolved file set of the current context request.
    pub files: Vec<FileEntry>,
    /// The stripped schema of the current context request.
    pub resolved_schema: Option<Schema>,
    /// The terminal outcome, fixed when the run enters `Cleanup`.
    pub outcome: Option<Result<Value, SearchError>>,
    pub phase: Phase,
}

impl QueryRun {
    /// The run's invariant: ordered time windows, and an outcome exactly
    /// from `Cleanup` on.
    pub open spec fn wf(self) -> bool {
        &&& self.range.wf()
        &&& self.ctx_range.wf()
        &&& (self.phase is Cleanup ==> self.outcome is Some)
        &&& (self.phase is Finished ==> self.outcome is Some)
    }

    /// Whether the run can take this event now.  A driver outside the
    /// verifier's reach checks here before calling `step`.
    pub fn accepts_event(&self, ev: &Event) -> (r: bool)
        ensures
            r == (spec_accepts(self.phase, *ev) && spec_event_wf(*ev)),
    {
        let phase_ok = match ev {
            Event::ContextRequested { .. } => self.phase == Phase::Evaluating,
            Event::FileList(_) => self.phase == Phase::Resolving,
            Event::Loaded(_) => self.phase == Phase::Loading,
            Event::SchemaFetched(_) => self.phase == Phase::FetchingSchema,
            Event::Bound(_) => self.phase == Phase::Binding,
            Event::Evaluated(_) => self.phase == Phase::Evaluating,
            Event::Cleared => self.phase == Phase::Cleanup,
        };
        let range_ok = match ev {
            Event::ContextRequested { start, end, .. } => *start <= *end,
            _ => true,
        };
        phase_ok && range_ok
    }

    /// Take one collaborator report and decide what happens next.
    ///
    /// The transition table below is the orchestrator's contract.  Three
    /// clauses carry its laws: a failure report from any stage fixes the
    /// outcome and demands session teardown before anything else; the
    /// run finishes only on the teardown's completion, so session state
    /// never outlives the run, whatever the outcome; and a context
    /// request whose resolved file set is empty short-circuits to the
    /// no-data result without an error.
    pub fn step(&mut self, ev: Event) -> (a: Action)
        requires
            old(self).wf(),
            spec_accepts(old(self).phase, ev),
            spec_event_wf(ev),
        ensures
            final(self).wf(),
            final(self).session_id == old(self).session_id,
            final(self).range == old(self).range,
            final(self).opts == old(self).opts,
            final(self).stream.org_id == old(self).stream.org_id,
            final(self).stream.stream_type == old(self).stream.stream_type,
            (a is Finish) <==> (ev is Cleared),
            (a is ClearSession) <==> (final(self).phase is Cleanup),
            ev is Cleared ==> final(self).phase is Finished && final(self).outcome == old(
                self,
            ).outcome,
            ev matches Event::ContextRequested { stream_name, start, end, filters } ==> {
                &&& final(self).phase is Resolving
                &&& a is ListFiles
                &&& final(self).stream.stream_name == stream_name
                &&& final(self).ctx_range == (TimeRange { start, end })
                &&& final(self).filters == filters
                &&& final(self).outcome == old(self).outcome
            },
            ev matches Event::FileList(Err(m)) ==> final(self).outcome == Some(
                Err::<Value, SearchError>(SearchError::FileList(m)),
            ),
            ev matches Event::FileList(Ok(candidates)) ==> {
                let kept = spec_filtered(
                    old(self).stream,
                    old(self).ctx_range,
                    old(self).filters@,
                    old(self).opts,
                    candidates@,
                );
                &&& (kept.len() == 0 ==> final(self).phase is Cleanup && final(self).outcome
                    == Some(Ok::<Value, SearchError>(Value::Empty)))
                &&& (kept.len() > 0 ==> final(self).phase is Loading && a is LoadFiles
                    && final(self).files@ == kept)
            },
            ev matches Event::Loaded(Err(e)) ==> final(self).outcome == Some(
                Err::<Value, SearchError>(SearchError::Load(e)),
            ),
            ev matches Event::Loaded(Ok(u)) ==> final(self).phase is FetchingSchema && a
                is FetchSchema,
            ev matches Event::SchemaFetched(Err(m)) ==> final(self).outcome == Some(
                Err::<Value, SearchError>(SearchError::Schema(m)),
            ),
            ev matches Event::SchemaFetched(Ok(s)) ==> {
                &&& final(self).phase is Binding
                &&& a is BindTable
                &&& final(self).resolved_schema matches Some(rs) && rs.fields == s.fields
                    && rs.metadata@ == Seq::<(String, String)>::empty()
            },
            ev matches Event::Bound(Err(e)) ==> final(self).outcome == Some(
                Err::<Value, SearchError>(SearchError::Bind(e)),
            ),
            ev matches Event::Bound(Ok(h)) ==> final(self).phase is Evaluating && a is Evaluate,
            ev matches Event::Evaluated(Ok(v)) ==> final(self).outcome == Some(
                Ok::<Value, SearchError>(v),
            ),
            ev matches Event::Evaluated(Err(m)) ==> final(self).outcome == Some(
                Err::<Value, SearchError>(SearchError::Execution(m)),
            ),
    {
        match ev {
            Event::ContextRequested { stream_name, start, end, filters } => {
                self.stream.stream_name = stream_name;
                self.ctx_range = TimeRange { start, end };
                self.filters = filters;
                self.phase = Phase::Resolving;
                Action::ListFiles
            },
            Event::FileList(res) => match res {
                Err(m) => {
                    self.outcome = Some(Err(SearchError::FileList(m)));
                    self.phase = Phase::Cleanup;
                    Action::ClearSession
                },
                Ok(candidates) => {
                    let kept = filter_file_list(
                        &self.stream,
                        self.ctx_range,
                        &self.filters,
                        self.opts,
                        candidates,
                    );
                    if kept.len() == 0 {
                        self.outcome = Some(Ok(Value::Empty));
                        self.phase = Phase::Cleanup;
                        Action::ClearSession
                    } else {
                        self.files = kept;
                        self.phase = Phase::Loading;
                        Action::LoadFiles
                    }
                },
            },
            Event::Loaded(res) => match res {
                Err(e) => {
                    self.outcome = Some(Err(SearchError::Load(e)));
                    self.phase = Phase::Cleanup;
                    Action::ClearSession
                },
                Ok(_) => {
                    self.phase = Phase::FetchingSchema;
                    Action::FetchSchema
                },
            },
            Event::SchemaFetched(res) => match res {
                Err(m) => {
                    self.outcome = Some(Err(SearchError::Schema(m)));
                    self.phase = Phase::Cleanup;
                    Action::ClearSession
                },
                Ok(s) => {
                    self.resolved_schema = Some(resolve_schema(s));
                    self.phase = Phase::Binding;
                    Action::BindTable
                },
            },
            Event::Bound(res) => match res {
                Err(e) => {
                    self.outcome = Some(Err(SearchError::Bind(e)));
                    self.phase = Phase::Cleanup;
                    Action::ClearSession
                },
                Ok(_) => {
                    self.phase = Phase::Evaluating;
                    Action::Evaluate
                },
            },
            Event::Evaluated(res) => {
                match res {
                    Ok(v) => {
                        self.outcome = Some(Ok(v));
                    },
                    Err(m) => {
                        self.outcome = Some(Err(SearchError::Execution(m)));
                    },
                }
                self.phase = Phase::Cleanup;
                Action::ClearSession
            },
            Event::Cleared => {
                self.phase = Phase::Finished;
                Action::Finish
            },
        }
    }

    /// The search's result, once the session is cleared.
    pub fn into_outcome(self) -> (r: Result<Value, SearchError>)
        requires
            self.wf(),
            self.phase is Finished,
        ensures
            Some(r) == self.outcome,
    {
        self.outcome.unwrap()
    }
}

/// Open a query run from a parse outcome: a rejected text is terminal and
/// becomes the parse error with the parser's message — no session state
/// exists yet, so nothing needs tearing down — and an accepted text
/// becomes a run over the fixed evaluation statement, ready for its
/// engine.
pub fn open_run(
    session_id: String,
    org_id: String,
    query: &MetricsQuery,
    parsed: Result<promql_parser::parser::Expr, String>,
) -> (r: Result<QueryRun, SearchError>)
    requires
        0 <= query.start <= query.end,
        query.step >= 0,
    ensures
        r is Ok <==> parsed is Ok,
        parsed matches Err(m) ==> r matches Err(e) && e == SearchError::Parse(m),
        r matches Ok(run) ==> {
            &&& run.wf()
            &&& run.phase is Evaluating
            &&& run.session_id == session_id
            &&& run.stream.org_id == org_id
            &&& run.stream.stream_type == StreamType::Metrics
            &&& run.range == (TimeRange { start: query.start, end: query.end })
            &&& run.ctx_range == run.range
            &&& run.stmt.start == query.start
            &&& run.stmt.end == query.end
            &&& run.stmt.interval == query.step
            &&& run.stmt.lookback_delta == LOOKBACK_DELTA_MICROS
            &&& run.opts == (MatchOptions { min_ts_only: false, require_filter_labels: false })
            &&& run.outcome is None
            &&& run.files@ == Seq::<FileEntry>::empty()
        },
{
    match parsed {
        Err(message) => Err(SearchError::Parse(message)),
        Ok(expr) => {
            let stmt = EvalStmt {
                expr,
                start: query.start,
                end: query.end,
                interval: query.step,
                lookback_delta: LOOKBACK_DELTA_MICROS,
            };
            let range = TimeRange { start: query.start, end: query.end };
            Ok(
                QueryRun {
                    session_id,
                    stream: StreamParams {
                        org_id,
                        stream_name: String::new(),
                        stream_type: StreamType::Metrics,
                    },
                    range,
                    ctx_range: range,
                    filters: Vec::new(),
                    opts: MatchOptions { min_ts_only: false, require_filter_labels: false },
                    stmt,
                    files: Vec::new(),
                    resolved_schema: None,
                    outcome: None,
                    phase: Phase::Evaluating,
                },
            )
        },
    }
}

/// Search in remote object storage: parse the query text and open a query
/// run over the fixed evaluation statement in the given session.  The
/// parser decides which texts are accepted; `open_run` states what each
/// outcome becomes.  On success the caller drives the run: start the
/// engine over the statement, answer each returned `Action`, and take the
/// outcome when the run finishes.
pub fn search(session_id: String, org_id: String, query: &MetricsQuery) -> (r: Result<
    QueryRun,
    SearchError,
>)
    requires
        0 <= query.start <= query.end,
        query.step >= 0,
    ensures
        r matches Err(e) ==> e is Parse,
        r matches Ok(run) ==> {
            &&& run.wf()
            &&& run.phase is Evaluating
            &&& run.session_id == session_id
            &&& run.stream.org_id == org_id
            &&& run.stream.stream_type == StreamType::Metrics
            &&& run.range == (TimeRange { start: query.start, end: query.end })
            &&& run.ctx_range == run.range
            &&& run.stmt.start == query.start
            &&& run.stmt.end == query.end
            &&& run.stmt.interval == query.step
            &&& run.stmt.lookback_delta == LOOKBACK_DELTA_MICROS
            &&& run.opts == (MatchOptions { min_ts_only: false, require_filter_labels: false })
            &&& run.outcome is None
            &&& run.files@ == Seq::<FileEntry>::empty()
        },
{
    let parsed = parse_promql(query.query.as_str());
    open_run(session_id, org_id, query, parsed)
}

} // verus!
