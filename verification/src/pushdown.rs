//! The push-down executor: routing decisions for intercepted statements,
//! the per-statement state machine with its fallback-and-warn policy, the
//! EXPLAIN option handling, and the statement texts the executor submits to
//! the engine.

use crate::text::{
    spec_dec, starts_with_ignore_ascii_case, starts_with_keyword, str_eq, u32_to_string,
    u64_to_string,
};
use vstd::prelude::*;

verus! {

/// Where an intercepted statement is executed.
#[derive(Clone, Copy, PartialEq, Eq, Structural, Debug)]
pub enum Route {
    /// Hand the statement to the embedded engine.
    Pushdown,
    /// Leave it to the host's native executor.
    Native,
}

/// Whether the query text starts with a keyword the executor hook lets
/// through to the native path (COPY, CREATE, PREPARE), ignoring case.
pub open spec fn spec_passthrough_keyword(q: Seq<char>) -> bool {
    ||| starts_with_ignore_ascii_case(q, "copy"@)
    ||| starts_with_ignore_ascii_case(q, "create"@)
    ||| starts_with_ignore_ascii_case(q, "prepare"@)
}

/// Routes a statement entering the main executor hook: pushed down exactly
/// when it references at least one relation, is a plain SELECT, every
/// referenced relation is engine-backed, and its text is not a COPY, CREATE
/// or PREPARE shape that must reach the native executor.
pub fn executor_route(has_relations: bool, is_select: bool, eligible: bool, query: &str) -> (r:
    Route)
    ensures
        (r is Pushdown) == (has_relations && is_select && eligible && !spec_passthrough_keyword(
            query@,
        )),
{
    if !has_relations || !is_select || !eligible {
        return Route::Native;
    }
    if starts_with_keyword(query, "copy") || starts_with_keyword(query, "create")
        || starts_with_keyword(query, "prepare") {
        return Route::Native;
    }
    Route::Pushdown
}

/// Routing of an EXECUTE of a prepared statement.
#[derive(Clone, Copy, PartialEq, Eq, Structural, Debug)]
pub enum PreparedRoute {
    /// Replay through the native executor.
    Native,
    /// Push the prepared query down; when the schema search path changed
    /// since planning, re-submit the PREPARE text first so the engine
    /// replans against the new path.
    Pushdown { replan: bool },
}

/// Routes an EXECUTE: pushed down exactly when the prepared plan has a
/// fixed result shape, is a plain SELECT, and references only engine-backed
/// relations; the engine replans exactly when the host's search path no
/// longer matches the plan's.
pub fn prepared_execute_route(
    fixed_result: bool,
    is_select: bool,
    eligible: bool,
    search_path_changed: bool,
) -> (r: PreparedRoute)
    ensures
        r == if fixed_result && is_select && eligible {
            PreparedRoute::Pushdown { replan: search_path_changed }
        } else {
            PreparedRoute::Native
        },
{
    if fixed_result && is_select && eligible {
        PreparedRoute::Pushdown { replan: search_path_changed }
    } else {
        PreparedRoute::Native
    }
}

/// The states of one intercepted statement's push-down run.
#[derive(Clone, Copy, PartialEq, Eq, Structural, Debug)]
pub enum PushdownState {
    /// The statement was intercepted; nothing has been decided.
    Start,
    /// The query text was handed to the engine session.
    Submitted,
    /// Result batches are being written to the host's destination.
    Materializing,
    /// All rows were written; the run is over.
    Complete,
    /// The statement was (or is being) executed by the native path.
    NativeFallback,
}

/// What the surrounding code observes at each step.
#[derive(Clone, Copy, PartialEq, Eq, Structural, Debug)]
pub enum PushdownEvent {
    /// The classifier found the statement ineligible.
    NotEligible,
    /// The classifier found every referenced relation engine-backed.
    Eligible,
    /// The engine accepted the submitted query.
    SubmitSucceeded,
    /// The engine rejected the submitted query.
    SubmitFailed,
    /// Every batch was converted and written.
    MaterializeSucceeded,
    /// A batch could not be retrieved or a cell failed conversion.
    MaterializeFailed,
}

/// What the caller must do after a step.
#[derive(Clone, Copy, PartialEq, Eq, Structural, Debug)]
pub struct PushdownActions {
    /// Reconcile the schema search path and submit the query text to the
    /// engine session.
    pub submit: bool,
    /// Pull result batches, convert each cell and write rows to the host's
    /// output destination.
    pub materialize: bool,
    /// Emit one non-fatal warning carrying the underlying error text.
    pub warn: bool,
    /// Execute the statement through the host's native path.
    pub run_native: bool,
    /// Release the engine's transient statement and result handles, and any
    /// destination-side resources opened so far.
    pub clear: bool,
    /// Report the number of written rows to the host's bookkeeping.
    pub report_rows: bool,
}

/// No obligations.
pub open spec fn no_actions() -> PushdownActions {
    PushdownActions {
        submit: false,
        materialize: false,
        warn: false,
        run_native: false,
        clear: false,
        report_rows: false,
    }
}

/// One transition of the per-statement machine. Failure after submission
/// always warns, clears the transient state and falls back to the native
/// path; ineligibility falls back silently; events that do not belong to
/// the current state change nothing.
pub open spec fn spec_step(s: PushdownState, e: PushdownEvent) -> (PushdownState, PushdownActions) {
    match (s, e) {
        (PushdownState::Start, PushdownEvent::NotEligible) => (
            PushdownState::NativeFallback,
            PushdownActions { run_native: true, ..no_actions() },
        ),
        (PushdownState::Start, PushdownEvent::Eligible) => (
            PushdownState::Submitted,
            PushdownActions { submit: true, ..no_actions() },
        ),
        (PushdownState::Submitted, PushdownEvent::SubmitSucceeded) => (
            PushdownState::Materializing,
            PushdownActions { materialize: true, ..no_actions() },
        ),
        (PushdownState::Submitted, PushdownEvent::SubmitFailed) => (
            PushdownState::NativeFallback,
            PushdownActions { warn: true, run_native: true, clear: true, ..no_actions() },
        ),
        (PushdownState::Materializing, PushdownEvent::MaterializeSucceeded) => (
            PushdownState::Complete,
            PushdownActions { clear: true, report_rows: true, ..no_actions() },
        ),
        (PushdownState::Materializing, PushdownEvent::MaterializeFailed) => (
            PushdownState::NativeFallback,
            PushdownActions { warn: true, run_native: true, clear: true, ..no_actions() },
        ),
        _ => (s, no_actions()),
    }
}

/// Performs one transition of the per-statement machine.
pub fn pushdown_step(s: PushdownState, e: PushdownEvent) -> (r: (PushdownState, PushdownActions))
    ensures
        r == spec_step(s, e),
{
    match (s, e) {
        (PushdownState::Start, PushdownEvent::NotEligible) => (
            PushdownState::NativeFallback,
            PushdownActions {
                submit: false,
                materialize: false,
                warn: false,
                run_native: true,
                clear: false,
                report_rows: false,
            },
        ),
        (PushdownState::Start, PushdownEvent::Eligible) => (
            PushdownState::Submitted,
            PushdownActions {
                submit: true,
                materialize: false,
                warn: false,
                run_native: false,
                clear: false,
                report_rows: false,
            },
        ),
        (PushdownState::Submitted, PushdownEvent::SubmitSucceeded) => (
            PushdownState::Materializing,
            PushdownActions {
                submit: false,
                materialize: true,
                warn: false,
                run_native: false,
                clear: false,
                report_rows: false,
            },
        ),
        (PushdownState::Submitted, PushdownEvent::SubmitFailed) => (
            PushdownState::NativeFallback,
            PushdownActions {
                submit: false,
                materialize: false,
                warn: true,
                run_native: true,
                clear: true,
                report_rows: false,
            },
        ),
        (PushdownState::Materializing, PushdownEvent::MaterializeSucceeded) => (
            PushdownState::Complete,
            PushdownActions {
                submit: false,
                materialize: false,
                warn: false,
                run_native: false,
                clear: true,
                report_rows: true,
            },
        ),
        (PushdownState::Materializing, PushdownEvent::MaterializeFailed) => (
            PushdownState::NativeFallback,
            PushdownActions {
                submit: false,
                materialize: false,
                warn: true,
                run_native: true,
                clear: true,
                report_rows: false,
            },
        ),
        _ => (
            s,
            PushdownActions {
                submit: false,
                materialize: false,
                warn: false,
                run_native: false,
                clear: false,
                report_rows: false,
            },
        ),
    }
}

/// The state after a whole event sequence.
pub open spec fn spec_run(s: PushdownState, events: Seq<PushdownEvent>) -> PushdownState
    decreases events.len(),
{
    if events.len() == 0 {
        s
    } else {
        spec_run(spec_step(s, events[0]).0, events.skip(1))
    }
}

/// How many warnings a whole event sequence emits.
pub open spec fn warn_count(s: PushdownState, events: Seq<PushdownEvent>) -> nat
    decreases events.len(),
{
    if events.len() == 0 {
        0
    } else {
        (if spec_step(s, events[0]).1.warn {
            1nat
        } else {
            0nat
        }) + warn_count(spec_step(s, events[0]).0, events.skip(1))
    }
}

/// How many times a whole event sequence runs the native path.
pub open spec fn native_count(s: PushdownState, events: Seq<PushdownEvent>) -> nat
    decreases events.len(),
{
    if events.len() == 0 {
        0
    } else {
        (if spec_step(s, events[0]).1.run_native {
            1nat
        } else {
            0nat
        }) + native_count(spec_step(s, events[0]).0, events.skip(1))
    }
}

/// Terminal states absorb every event without further actions.
proof fn lemma_terminal_quiet(s: PushdownState, events: Seq<PushdownEvent>)
    requires
        s is Complete || s is NativeFallback,
    ensures
        warn_count(s, events) == 0,
        native_count(s, events) == 0,
        spec_run(s, events) == s,
    decreases events.len(),
{
    if events.len() > 0 {
        lemma_terminal_quiet(s, events.skip(1));
    }
}

/// Fallback policy of a whole run: however the engine behaves, a statement
/// intercepted at `Start` emits at most one warning and enters the native
/// path at most once; a warning is emitted exactly when the engine accepted
/// classification but submission or materialization then failed, and every
/// warned run also runs the native path, so the caller still receives a
/// result. A completed push-down (`Complete`) warns nobody.
pub proof fn lemma_fallback_policy(events: Seq<PushdownEvent>)
    ensures
        warn_count(PushdownState::Start, events) <= 1,
        native_count(PushdownState::Start, events) <= 1,
        warn_count(PushdownState::Start, events) <= native_count(PushdownState::Start, events),
        spec_run(PushdownState::Start, events) is Complete ==> warn_count(
            PushdownState::Start,
            events,
        ) == 0,
        spec_run(PushdownState::Start, events) is NativeFallback ==> native_count(
            PushdownState::Start,
            events,
        ) == 1,
    decreases events.len(),
{
    lemma_fallback_policy_from(PushdownState::Start, events);
}

/// The fallback policy from any live state.
proof fn lemma_fallback_policy_from(s: PushdownState, events: Seq<PushdownEvent>)
    requires
        !(s is Complete),
        !(s is NativeFallback),
    ensures
        warn_count(s, events) <= 1,
        native_count(s, events) <= 1,
        warn_count(s, events) <= native_count(s, events),
        spec_run(s, events) is Complete ==> warn_count(s, events) == 0,
        spec_run(s, events) is NativeFallback ==> native_count(s, events) == 1,
    decreases events.len(),
{
    if events.len() > 0 {
        let (next, acts) = spec_step(s, events[0]);
        if next is Complete || next is NativeFallback {
            lemma_terminal_quiet(next, events.skip(1));
        } else {
            lemma_fallback_policy_from(next, events.skip(1));
        }
    }
}

/// How EXPLAIN output is produced for a pushed-down statement.
#[derive(Clone, Copy, PartialEq, Eq, Structural, Debug)]
pub enum ExplainStyle {
    /// A native-looking single-line summary.
    Postgres,
    /// The engine's own plan (or profile) text, verbatim.
    Duckdb,
}

/// The recognized EXPLAIN options.
#[derive(Clone, Copy, PartialEq, Eq, Structural, Debug)]
pub struct ExplainState {
    /// Execute the statement and report timing.
    pub analyze: bool,
    /// Whose plan text is shown.
    pub style: ExplainStyle,
}

/// Parses the value of the EXPLAIN `style` option.
pub fn parse_explain_style(style: &str) -> (r: Option<ExplainStyle>)
    ensures
        r == if style@ == "pg"@ || style@ == "postgres"@ {
            Some(ExplainStyle::Postgres)
        } else if style@ == "duckdb"@ {
            Some(ExplainStyle::Duckdb)
        } else {
            None::<ExplainStyle>
        },
{
    if str_eq(style, "pg") || str_eq(style, "postgres") {
        Some(ExplainStyle::Postgres)
    } else if str_eq(style, "duckdb") {
        Some(ExplainStyle::Duckdb)
    } else {
        None
    }
}

/// Why an EXPLAIN option list is rejected.
#[derive(Clone, PartialEq, Debug)]
pub enum ExplainOptionError {
    /// An option name other than `analyze` or `style`.
    UnrecognizedOption(String),
    /// An `analyze` value that is not a boolean word.
    InvalidBoolean(String),
    /// A `style` value other than `pg`, `postgres` or `duckdb`.
    UnrecognizedStyle(String),
}

/// The ghost content of an EXPLAIN option error.
pub ghost enum ExplainIssue {
    UnrecognizedOption(Seq<char>),
    InvalidBoolean(Seq<char>),
    UnrecognizedStyle(Seq<char>),
}

impl View for ExplainOptionError {
    type V = ExplainIssue;

    open spec fn view(&self) -> ExplainIssue {
        match self {
            ExplainOptionError::UnrecognizedOption(s) => ExplainIssue::UnrecognizedOption(s@),
            ExplainOptionError::InvalidBoolean(s) => ExplainIssue::InvalidBoolean(s@),
            ExplainOptionError::UnrecognizedStyle(s) => ExplainIssue::UnrecognizedStyle(s@),
        }
    }
}

/// The boolean reading of an option value: an absent value means true, as
/// the host reads flag-shaped options.
pub open spec fn spec_bool_option(v: Option<Seq<char>>) -> Option<bool> {
    match v {
        None => Some(true),
        Some(s) => if s == "true"@ || s == "on"@ || s == "yes"@ || s == "1"@ {
            Some(true)
        } else if s == "false"@ || s == "off"@ || s == "no"@ || s == "0"@ {
            Some(false)
        } else {
            None
        },
    }
}

fn parse_bool_option(v: &Option<String>) -> (r: Option<bool>)
    ensures
        r == spec_bool_option(v.deep_view()),
{
    match v {
        None => Some(true),
        Some(s) => {
            if str_eq(s.as_str(), "true") || str_eq(s.as_str(), "on") || str_eq(s.as_str(), "yes")
                || str_eq(s.as_str(), "1") {
                Some(true)
            } else if str_eq(s.as_str(), "false") || str_eq(s.as_str(), "off") || str_eq(
                s.as_str(),
                "no",
            ) || str_eq(s.as_str(), "0") {
                Some(false)
            } else {
                None
            }
        },
    }
}

/// The outcome of folding the option list, left to right, over a state.
pub open spec fn spec_parse_explain_options(
    acc: ExplainState,
    opts: Seq<(Seq<char>, Option<Seq<char>>)>,
) -> Result<ExplainState, ExplainIssue>
    decreases opts.len(),
{
    if opts.len() == 0 {
        Ok(acc)
    } else {
        let (name, value) = opts[0];
        if name == "analyze"@ {
            match spec_bool_option(value) {
                Some(b) => spec_parse_explain_options(
                    ExplainState { analyze: b, ..acc },
                    opts.skip(1),
                ),
                None => Err(
                    ExplainIssue::InvalidBoolean(
                        match value {
                            Some(s) => s,
                            None => Seq::empty(),
                        },
                    ),
                ),
            }
        } else if name == "style"@ {
            let v = match value {
                Some(s) => s,
                None => Seq::empty(),
            };
            if v == "pg"@ || v == "postgres"@ {
                spec_parse_explain_options(
                    ExplainState { style: ExplainStyle::Postgres, ..acc },
                    opts.skip(1),
                )
            } else if v == "duckdb"@ {
                spec_parse_explain_options(
                    ExplainState { style: ExplainStyle::Duckdb, ..acc },
                    opts.skip(1),
                )
            } else {
                Err(ExplainIssue::UnrecognizedStyle(v))
            }
        } else {
            Err(ExplainIssue::UnrecognizedOption(name))
        }
    }
}

/// Reads an EXPLAIN option list, in order: `analyze` takes a boolean value
/// (or none, read as true), `style` selects whose plan text is shown; any
/// other name, a non-boolean `analyze` value, or an unknown style is
/// rejected, naming the offending text. Later options override earlier
/// ones. The default is no analysis, native-looking output.
pub fn parse_explain_options(options: &Vec<(String, Option<String>)>) -> (r: Result<
    ExplainState,
    ExplainOptionError,
>)
    ensures
        match r {
            Ok(st) => spec_parse_explain_options(
                ExplainState { analyze: false, style: ExplainStyle::Postgres },
                options.deep_view(),
            ) == Ok::<ExplainState, ExplainIssue>(st),
            Err(e) => spec_parse_explain_options(
                ExplainState { analyze: false, style: ExplainStyle::Postgres },
                options.deep_view(),
            ) == Err::<ExplainState, ExplainIssue>(e@),
        },
{
    let mut state = ExplainState { analyze: false, style: ExplainStyle::Postgres };
    let n = options.len();
    proof {
        assert(options.deep_view().skip(0) =~= options.deep_view());
    }
    let mut i: usize = 0;
    while i < n
        invariant
            i <= n,
            n == options@.len(),
            options.deep_view().len() == n,
            spec_parse_explain_options(
                ExplainState { analyze: false, style: ExplainStyle::Postgres },
                options.deep_view(),
            ) == spec_parse_explain_options(state, options.deep_view().skip(i as int)),
        decreases n - i,
    {
        let ghost rest = options.deep_view().skip(i as int);
        proof {
            assert(rest[0] == options.deep_view()[i as int]);
            assert(rest.skip(1) =~= options.deep_view().skip(i + 1 as int));
        }
        let name = &options[i].0;
        let value = &options[i].1;
        proof {
            assert(options.deep_view()[i as int].0 == name@);
            assert(options.deep_view()[i as int].1 == value.deep_view());
        }
        if str_eq(name.as_str(), "analyze") {
            match parse_bool_option(value) {
                Some(b) => {
                    state = ExplainState { analyze: b, ..state };
                },
                None => {
                    let bad = match value {
                        Some(s) => s.clone(),
                        None => String::new(),
                    };
                    return Err(ExplainOptionError::InvalidBoolean(bad));
                },
            }
        } else if str_eq(name.as_str(), "style") {
            let v = match value {
                Some(s) => s.clone(),
                None => String::new(),
            };
            match parse_explain_style(v.as_str()) {
                Some(style) => {
                    state = ExplainState { style, ..state };
                },
                None => {
                    return Err(ExplainOptionError::UnrecognizedStyle(v));
                },
            }
        } else {
            return Err(ExplainOptionError::UnrecognizedOption(name.clone()));
        }
        i = i + 1;
    }
    proof {
        assert(options.deep_view().skip(n as int) =~= Seq::<
            (Seq<char>, Option<Seq<char>>),
        >::empty());
    }
    Ok(state)
}

/// Three zero-padded decimal digits, for a millisecond fraction.
pub open spec fn spec_frac3(n: nat) -> Seq<char> {
    if n < 10 {
        "00"@ + spec_dec(n)
    } else if n < 100 {
        "0"@ + spec_dec(n)
    } else {
        spec_dec(n)
    }
}

fn frac3(n: u32) -> (r: String)
    requires
        n < 1000,
    ensures
        r@ == spec_frac3(n as nat),
{
    let digits = u32_to_string(n);
    let mut out = String::new();
    if n < 10 {
        out.append("00");
    } else if n < 100 {
        out.append("0");
    }
    out.append(digits.as_str());
    out
}

/// The native-looking EXPLAIN summary of a pushed-down query: the scan
/// line, and, after an analyzed run of `elapsed_us` microseconds, the
/// execution time in milliseconds with three decimals.
pub open spec fn spec_explain_summary(query: Seq<char>, elapsed_us: Option<u64>) -> Seq<char> {
    "DuckDB Scan: "@ + query + "\n"@ + match elapsed_us {
        None => Seq::<char>::empty(),
        Some(us) => "Execution Time: "@ + spec_dec(us as nat / 1000) + "."@ + spec_frac3(
            us as nat % 1000,
        ) + " ms\n"@,
    }
}

/// Renders the native-looking EXPLAIN output for a pushed-down query;
/// `elapsed_us` is the measured execution time of an analyzed run.
pub fn explain_summary(query: &str, elapsed_us: Option<u64>) -> (r: String)
    ensures
        r@ == spec_explain_summary(query@, elapsed_us),
{
    let mut out = String::from_str("DuckDB Scan: ");
    out.append(query);
    out.append("\n");
    match elapsed_us {
        None => {},
        Some(us) => {
            out.append("Execution Time: ");
            let ms = u64_to_string(us / 1000);
            out.append(ms.as_str());
            out.append(".");
            let f = frac3((us % 1000) as u32);
            out.append(f.as_str());
            out.append(" ms\n");
        },
    }
    out
}

/// The statement submitted for an engine-style EXPLAIN.
pub open spec fn spec_explain_statement(query: Seq<char>, analyze: bool) -> Seq<char> {
    if analyze {
        "EXPLAIN ANALYZE "@ + query
    } else {
        "EXPLAIN "@ + query
    }
}

/// Builds the EXPLAIN (or EXPLAIN ANALYZE) text submitted to the engine.
pub fn explain_statement(query: &str, analyze: bool) -> (r: String)
    ensures
        r@ == spec_explain_statement(query@, analyze),
{
    let mut out = if analyze {
        String::from_str("EXPLAIN ANALYZE ")
    } else {
        String::from_str("EXPLAIN ")
    };
    out.append(query);
    out
}

/// The statement that drops a prepared statement on the engine side.
pub open spec fn spec_deallocate_statement(name: Seq<char>) -> Seq<char> {
    "DEALLOCATE \""@ + name + "\""@
}

/// Builds the engine-side DEALLOCATE text for a named prepared statement.
pub fn deallocate_statement(name: &str) -> (r: String)
    ensures
        r@ == spec_deallocate_statement(name@),
{
    let mut out = String::from_str("DEALLOCATE \"");
    out.append(name);
    out.append("\"");
    out
}

/// The normalization of an information-schema table type for a DROP: the
/// leading `BASE` marker and surrounding whitespace are removed, so `BASE
/// TABLE` drops as a `TABLE`.
pub open spec fn spec_table_type_keyword(t: Seq<char>) -> Seq<char> {
    if t.len() >= 4 && t.take(4) == "BASE"@ {
        crate::text::spec_trim(t.skip(4))
    } else {
        crate::text::spec_trim(t)
    }
}

/// The statement that drops a relation on the engine side.
pub open spec fn spec_drop_statement(
    table_type: Seq<char>,
    schema: Seq<char>,
    table: Seq<char>,
) -> Seq<char> {
    "DROP "@ + spec_table_type_keyword(table_type) + " "@ + schema + "."@ + table
}

/// Builds the engine-side DROP text for a relation whose type was read from
/// the engine's information schema (`BASE TABLE` or `VIEW`).
pub fn drop_statement(table_type: &str, schema: &str, table: &str) -> (r: String)
    ensures
        r@ == spec_drop_statement(table_type@, schema@, table@),
{
    let cs = crate::text::str_chars(table_type);
    let marked = cs.len() >= 4 && cs[0] == 'B' && cs[1] == 'A' && cs[2] == 'S' && cs[3] == 'E';
    proof {
        reveal_strlit("BASE");
        if marked {
            assert(table_type@.take(4) =~= "BASE"@);
        } else if table_type@.len() >= 4 && table_type@.take(4) == "BASE"@ {
            assert(table_type@[0] == 'B' && table_type@[1] == 'A' && table_type@[2] == 'S'
                && table_type@[3] == 'E') by {
                assert(table_type@.take(4)[0] == table_type@[0]);
                assert(table_type@.take(4)[1] == table_type@[1]);
                assert(table_type@.take(4)[2] == table_type@[2]);
                assert(table_type@.take(4)[3] == table_type@[3]);
            }
            assert(false);
        }
    }
    let keyword = if marked {
        let rest = crate::text::copy_range(&cs, 4, cs.len());
        proof {
            assert(rest@ =~= table_type@.skip(4));
        }
        crate::text::trim_chars(&rest)
    } else {
        crate::text::trim_chars(&cs)
    };
    let kw = crate::text::chars_to_string(&keyword);
    let mut out = String::from_str("DROP ");
    out.append(kw.as_str());
    out.append(" ");
    out.append(schema);
    out.append(".");
    out.append(table);
    out
}

/// The file name of the per-database engine store: the database's numeric
/// identifier with the engine-database extension.
pub open spec fn spec_session_file_name(database_id: u32) -> Seq<char> {
    spec_dec(database_id as nat) + ".db3"@
}

/// Builds the file name of a logical database's engine store.
pub fn session_file_name(database_id: u32) -> (r: String)
    ensures
        r@ == spec_session_file_name(database_id),
{
    let mut out = u32_to_string(database_id);
    out.append(".db3");
    out
}

/// The statement pair that installs and loads an engine extension.
pub open spec fn spec_install_and_load(name: Seq<char>) -> Seq<char> {
    "INSTALL "@ + name + "; LOAD "@ + name + ";"@
}

/// Builds the text that installs and loads an engine extension.
pub fn install_and_load(name: &str) -> (r: String)
    ensures
        r@ == spec_install_and_load(name@),
{
    let mut out = String::from_str("INSTALL ");
    out.append(name);
    out.append("; LOAD ");
    out.append(name);
    out.append(";");
    out
}

/// The kinds of utility statements the utility hook intercepts.
#[derive(Clone, Copy, PartialEq, Eq, Structural, Debug)]
pub enum UtilityStatementKind {
    Explain,
    View,
    Prepare,
    Deallocate,
    Execute,
    Other,
}

/// Whether the utility hook handles this statement kind itself.
pub fn is_support_utility(kind: UtilityStatementKind) -> (r: bool)
    ensures
        r == !(kind is Other),
{
    !matches!(kind, UtilityStatementKind::Other)
}

/// The statement text the host associated with a parsed statement: the
/// slice of the submitted query string from `start` over `len` characters,
/// the whole remainder when `len` is zero, and the whole string when
/// `start` marks the location unknown.
pub fn get_current_query(full_query: &str, start: i32, len: i32) -> (r: String)
    requires
        start == -1 || (0 <= start && start <= full_query@.len() && 0 <= len && start + len
            <= full_query@.len()),
    ensures
        r@ == if start == -1 {
            full_query@
        } else if len == 0 {
            full_query@.skip(start as int)
        } else {
            full_query@.subrange(start as int, start + len)
        },
{
    let cs = crate::text::str_chars(full_query);
    let n = cs.len();
    if start == -1 {
        crate::text::chars_to_string(&cs)
    } else {
        let from = start as usize;
        let to = if len == 0 {
            n
        } else {
            (start as usize) + (len as usize)
        };
        let piece = crate::text::copy_range(&cs, from, to);
        crate::text::chars_to_string(&piece)
    }
}

/// What the host does after submitting a delegated view creation to the
/// engine's catalog: the native creation always proceeds, so the caller
/// still gets its view, and a rejected submission additionally warns once
/// with the underlying error text — the same recoverable-fallback policy
/// as a pushed-down query.
pub fn view_submit_step(submit_succeeded: bool) -> (r: PushdownActions)
    ensures
        r == (PushdownActions {
            submit: false,
            materialize: false,
            warn: !submit_succeeded,
            run_native: true,
            clear: false,
            report_rows: false,
        }),
{
    PushdownActions {
        submit: false,
        materialize: false,
        warn: !submit_succeeded,
        run_native: true,
        clear: false,
        report_rows: false,
    }
}

} // verus!
