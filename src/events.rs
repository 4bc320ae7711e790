//! The cargo event stream: one event per line, and the parser that turns
//! events into progress, diagnostics, captured compiler invocations and the
//! produced executable.
use vstd::prelude::*;
use cargo_metadata::diagnostic::DiagnosticLevel;
use cargo_metadata::Message as CargoMessage;
use crate::error::BuildError;
use crate::request::CargoBuildResult;
use crate::text::{
    chars_of, has_prefix_at, skip_prefixes, skip_suffix_char, skip_ws_end, skip_ws_start,
    starts_with, strip_prefixes, strip_suffix_char, trim_end_spec, trim_start_spec,
};

verus! {

/// The level of a compiler diagnostic, as cargo_metadata reads it.
#[verifier::external_type_specification]
#[verifier::external_body]
pub struct ExDiagnosticLevel(DiagnosticLevel);

/// One message of the build's output stream.
#[derive(Debug)]
pub enum BuildEvent {
    /// A build script ran.
    ScriptExecuted,
    /// A line of plain text.
    TextLine(String),
    /// A compiler diagnostic: its level, error code, message and rendered text.
    Diagnostic {
        level: DiagnosticLevel,
        code: Option<String>,
        message: String,
        rendered: Option<String>,
    },
    /// A compiled artifact; `executable` is set where it is a program.
    Artifact { executable: Option<String>, target_name: String },
    /// The build ended.
    Finished { success: bool },
    /// Any other message.
    Other,
}

pub enum EventView {
    ScriptExecuted,
    TextLine(Seq<char>),
    Diagnostic {
        level: DiagnosticLevel,
        code: Option<Seq<char>>,
        message: Seq<char>,
        rendered: Option<Seq<char>>,
    },
    Artifact { executable: Option<Seq<char>>, target_name: Seq<char> },
    Finished { success: bool },
    Other,
}

pub open spec fn opt_str_view(o: Option<String>) -> Option<Seq<char>> {
    match o {
        Some(s) => Some(s@),
        None => None,
    }
}

impl View for BuildEvent {
    type V = EventView;

    open spec fn view(&self) -> EventView {
        match self {
            BuildEvent::ScriptExecuted => EventView::ScriptExecuted,
            BuildEvent::TextLine(l) => EventView::TextLine(l@),
            BuildEvent::Diagnostic { level, code, message, rendered } => EventView::Diagnostic {
                level: *level,
                code: opt_str_view(*code),
                message: message@,
                rendered: opt_str_view(*rendered),
            },
            BuildEvent::Artifact { executable, target_name } => EventView::Artifact {
                executable: opt_str_view(*executable),
                target_name: target_name@,
            },
            BuildEvent::Finished { success } => EventView::Finished { success: *success },
            BuildEvent::Other => EventView::Other,
        }
    }
}

pub open spec fn event_opt_view(r: Option<BuildEvent>) -> Option<EventView> {
    match r {
        Some(e) => Some(e@),
        None => None,
    }
}

/// The deepest nesting of JSON arrays and objects that a line may hold
/// before it is read; serde_json's own default limit.
pub open spec fn max_nesting() -> nat {
    128
}

/// Where a scan for JSON nesting stands: the arrays and objects open now, the
/// most open at any point so far, and whether it is inside a string, just
/// after a backslash there.
pub struct ScanState {
    pub depth: nat,
    pub deepest: nat,
    pub in_string: bool,
    pub escaped: bool,
}

/// The scan state after one more character.
pub open spec fn scan_step(st: ScanState, c: char) -> ScanState {
    if st.in_string {
        if st.escaped {
            ScanState { escaped: false, ..st }
        } else if c == '\\' {
            ScanState { escaped: true, ..st }
        } else if c == '"' {
            ScanState { in_string: false, ..st }
        } else {
            st
        }
    } else if c == '"' {
        ScanState { in_string: true, ..st }
    } else if c == '[' || c == '{' {
        ScanState {
            depth: st.depth + 1,
            deepest: if st.depth + 1 > st.deepest {
                st.depth + 1
            } else {
                st.deepest
            },
            ..st
        }
    } else if c == ']' || c == '}' {
        ScanState {
            depth: if st.depth > 0 {
                (st.depth - 1) as nat
            } else {
                0
            },
            ..st
        }
    } else {
        st
    }
}

/// The scan state after all of `s`.
pub open spec fn scan(s: Seq<char>) -> ScanState
    decreases s.len(),
{
    if s.len() == 0 {
        ScanState { depth: 0, deepest: 0, in_string: false, escaped: false }
    } else {
        scan_step(scan(s.drop_last()), s.last())
    }
}

/// How deeply JSON arrays and objects nest in `s`: brackets and braces
/// inside strings do not count. Up to the first character where `s` stops
/// being JSON, this is the depth a JSON reader reaches.
pub open spec fn json_depth(s: Seq<char>) -> nat {
    scan(s).deepest
}

/// The deepest point of a scan never falls as it goes on.
pub proof fn lemma_depth_grows(s: Seq<char>, i: int)
    requires
        0 <= i <= s.len(),
    ensures
        json_depth(s.subrange(0, i)) <= json_depth(s),
    decreases s.len() - i,
{
    if i < s.len() {
        lemma_depth_grows(s, i + 1);
        assert(s.subrange(0, i + 1).drop_last() =~= s.subrange(0, i));
    } else {
        assert(s.subrange(0, i) =~= s);
    }
}

/// Whether JSON in `line` nests at most `max_nesting()` deep.
pub fn depth_within_limit(line: &str) -> (r: bool)
    ensures
        r == (json_depth(line@) <= max_nesting()),
{
    let v = chars_of(line);
    let mut depth: usize = 0;
    let mut deepest: usize = 0;
    let mut in_string = false;
    let mut escaped = false;
    let mut i: usize = 0;
    while i < v.len()
        invariant
            i <= v@.len(),
            v@ == line@,
            scan(v@.subrange(0, i as int)) == (ScanState {
                depth: depth as nat,
                deepest: deepest as nat,
                in_string,
                escaped,
            }),
            depth <= deepest <= 128,
        decreases v.len() - i,
    {
        assert(v@.subrange(0, i + 1).drop_last() =~= v@.subrange(0, i as int));
        let c = v[i];
        if in_string {
            if escaped {
                escaped = false;
            } else if c == '\\' {
                escaped = true;
            } else if c == '"' {
                in_string = false;
            }
        } else if c == '"' {
            in_string = true;
        } else if c == '[' || c == '{' {
            if depth == 128 {
                proof {
                    lemma_depth_grows(v@, i + 1);
                }
                return false;
            }
            depth = depth + 1;
            if depth > deepest {
                deepest = depth;
            }
        } else if c == ']' || c == '}' {
            if depth > 0 {
                depth = depth - 1;
            }
        }
        i = i + 1;
    }
    assert(v@.subrange(0, i as int) =~= v@);
    true
}

/// The event that cargo_metadata reads from one line of output.
pub uninterp spec fn cargo_event_of(line: Seq<char>) -> Option<EventView>;

/// Relies on cargo_metadata's `Message::parse_stream` over the one line: a
/// line that is no cargo message comes back as a text line. Of a diagnostic
/// the level, the code, the message and its rendered text are kept, of an
/// artifact its executable and target name. `parse_stream` lifts serde_json's recursion limit, so the
/// line's JSON nesting is bounded here, which keeps the parse off a stack
/// overflow.
#[verifier::external_body]
fn parse_event(line: &str) -> (r: Option<BuildEvent>)
    requires
        json_depth(line@) <= max_nesting(),
    ensures
        event_opt_view(r) == cargo_event_of(line@),
{
    let msg = CargoMessage::parse_stream(std::io::Cursor::new(line)).next()?.ok()?;
    Some(match msg {
        CargoMessage::BuildScriptExecuted(_) => BuildEvent::ScriptExecuted,
        CargoMessage::TextLine(t) => BuildEvent::TextLine(t),
        CargoMessage::CompilerMessage(m) => BuildEvent::Diagnostic {
            level: m.message.level, code: m.message.code.map(|c| c.code),
            message: m.message.message, rendered: m.message.rendered,
        },
        CargoMessage::CompilerArtifact(a) => BuildEvent::Artifact {
            executable: a.executable.map(String::from), target_name: a.target.name,
        },
        CargoMessage::BuildFinished(f) => BuildEvent::Finished { success: f.success },
        _ => BuildEvent::Other,
    })
}

pub open spec fn words_view(r: Option<Vec<String>>) -> Option<Seq<Seq<char>>> {
    match r {
        Some(v) => Some(v.deep_view()),
        None => None,
    }
}

/// The words that shell_words reads from a command line.
pub uninterp spec fn shell_split_of(s: Seq<char>) -> Option<Seq<Seq<char>>>;

/// Relies on `shell_words::split`: the words of a command line as a POSIX
/// shell splits them, or nothing where its quoting is unbalanced.
#[verifier::external_body]
fn shell_split(s: &str) -> (r: Option<Vec<String>>)
    ensures
        words_view(r) == shell_split_of(s@),
{
    shell_words::split(s).ok()
}

/// The command of a line in which cargo reports a compiler invocation
/// (`Running `...``): the trimmed line without its leading marker and its
/// trailing backticks.
pub open spec fn running_invocation(line: Seq<char>) -> Option<Seq<char>> {
    let t = trim_end_spec(trim_start_spec(line));
    if starts_with(t, "Running "@) {
        Some(strip_suffix_char(strip_prefixes(t, "Running `"@), '`'))
    } else {
        None
    }
}

/// Whether a text line opens an error report.
pub open spec fn opens_error(line: Seq<char>) -> bool {
    starts_with(trim_start_spec(line), "error:"@)
}

/// The compiler invocation that a text line reports, if it reports one.
pub fn invocation_text(line: &str) -> (r: Option<&str>)
    ensures
        match r {
            Some(s) => running_invocation(line@) == Some(s@),
            None => running_invocation(line@) is None,
        },
{
    let v = chars_of(line);
    let n = v.len();
    assert(v@.subrange(0, n as int) =~= v@);
    let a = skip_ws_start(&v, 0, n);
    let b = skip_ws_end(&v, a, n);
    let running = chars_of("Running ");
    if !has_prefix_at(&v, a, b, &running) {
        return None;
    }
    let marker = chars_of("Running `");
    let c = skip_prefixes(&v, a, b, &marker);
    let d = skip_suffix_char(&v, c, b, '`');
    Some(line.substring_char(c, d))
}

/// Whether a text line opens an error report.
pub fn is_error_line(line: &str) -> (r: bool)
    ensures
        r == opens_error(line@),
{
    let v = chars_of(line);
    let n = v.len();
    assert(v@.subrange(0, n as int) =~= v@);
    let a = skip_ws_start(&v, 0, n);
    let marker = chars_of("error:");
    has_prefix_at(&v, a, n, &marker)
}

/// A status update for the user.
#[derive(Debug)]
pub enum BuildStatus {
    /// Nothing to show.
    Quiet,
    /// A line of build output.
    Message(String),
    /// A line of build output that belongs to an error report.
    Error(String),
    /// A compiler diagnostic, as the compiler gave it.
    Diagnostic {
        level: DiagnosticLevel,
        code: Option<String>,
        message: String,
        rendered: Option<String>,
    },
    /// One more unit compiled, of `total` expected.
    Progress { compiled: usize, total: usize, name: String },
}

pub enum StatusView {
    Quiet,
    Message(Seq<char>),
    Error(Seq<char>),
    Diagnostic {
        level: DiagnosticLevel,
        code: Option<Seq<char>>,
        message: Seq<char>,
        rendered: Option<Seq<char>>,
    },
    Progress { compiled: nat, total: nat, name: Seq<char> },
}

impl View for BuildStatus {
    type V = StatusView;

    open spec fn view(&self) -> StatusView {
        match self {
            BuildStatus::Quiet => StatusView::Quiet,
            BuildStatus::Message(l) => StatusView::Message(l@),
            BuildStatus::Error(l) => StatusView::Error(l@),
            BuildStatus::Diagnostic { level, code, message, rendered } => StatusView::Diagnostic {
                level: *level,
                code: opt_str_view(*code),
                message: message@,
                rendered: opt_str_view(*rendered),
            },
            BuildStatus::Progress { compiled, total, name } => StatusView::Progress {
                compiled: *compiled as nat,
                total: *total as nat,
                name: name@,
            },
        }
    }
}

/// The running state of one pass over the event stream.
#[derive(Debug)]
pub struct EventParser {
    /// The unit count that progress is reported against.
    pub expected_units: usize,
    pub units_compiled: usize,
    /// Set by the first text line that opens an error; never cleared.
    pub emitting_error: bool,
    /// The compiler invocations reported so far, as argument vectors.
    pub direct_rustc: Vec<Vec<String>>,
    /// The last executable reported.
    pub output_location: Option<String>,
}

pub struct ParserView {
    pub expected_units: nat,
    pub units_compiled: nat,
    pub emitting_error: bool,
    pub direct_rustc: Seq<Seq<Seq<char>>>,
    pub output_location: Option<Seq<char>>,
}

impl View for EventParser {
    type V = ParserView;

    open spec fn view(&self) -> ParserView {
        ParserView {
            expected_units: self.expected_units as nat,
            units_compiled: self.units_compiled as nat,
            emitting_error: self.emitting_error,
            direct_rustc: self.direct_rustc.deep_view(),
            output_location: opt_str_view(self.output_location),
        }
    }
}

/// The state after a text line, given the words its invocation splits into.
pub open spec fn text_step(s: ParserView, line: Seq<char>, words: Option<Seq<Seq<char>>>) -> ParserView {
    ParserView {
        emitting_error: s.emitting_error || opens_error(line),
        direct_rustc: match (running_invocation(line), words) {
            (Some(_), Some(w)) => s.direct_rustc.push(w),
            _ => s.direct_rustc,
        },
        ..s
    }
}

/// How a text line is reported: as an error once any line has opened one.
pub open spec fn text_status(s: ParserView, line: Seq<char>) -> StatusView {
    if s.emitting_error || opens_error(line) {
        StatusView::Error(line)
    } else {
        StatusView::Message(line)
    }
}

/// The words of the invocation a text line reports, if any.
pub open spec fn line_words(line: Seq<char>) -> Option<Seq<Seq<char>>> {
    match running_invocation(line) {
        Some(a) => shell_split_of(a),
        None => None,
    }
}

/// The state after one event.
pub open spec fn step(s: ParserView, e: EventView) -> ParserView {
    match e {
        EventView::ScriptExecuted => ParserView { units_compiled: s.units_compiled + 1, ..s },
        EventView::TextLine(l) => text_step(s, l, line_words(l)),
        EventView::Artifact { executable, target_name } => match executable {
            Some(p) => ParserView { output_location: Some(p), ..s },
            None => ParserView { units_compiled: s.units_compiled + 1, ..s },
        },
        _ => s,
    }
}

/// What one event reports; a build that ends in failure ends the stream.
pub open spec fn step_result(s: ParserView, e: EventView) -> Result<StatusView, BuildError> {
    match e {
        EventView::TextLine(l) => Ok(text_status(s, l)),
        EventView::Diagnostic { level, code, message, rendered } => Ok(
            StatusView::Diagnostic { level, code, message, rendered },
        ),
        EventView::Artifact { executable, target_name } => match executable {
            Some(_) => Ok(StatusView::Quiet),
            None => Ok(
                StatusView::Progress {
                    compiled: s.units_compiled + 1,
                    total: s.expected_units,
                    name: target_name,
                },
            ),
        },
        EventView::Finished { success } => if success {
            Ok(StatusView::Quiet)
        } else {
            Err(BuildError::CargoFailed)
        },
        _ => Ok(StatusView::Quiet),
    }
}

/// The state after each event of `es` in turn.
pub open spec fn run(s: ParserView, es: Seq<EventView>) -> ParserView
    decreases es.len(),
{
    if es.len() == 0 {
        s
    } else {
        step(run(s, es.drop_last()), es.last())
    }
}

/// Whether an event adds a compiled unit.
pub open spec fn counts_unit(e: EventView) -> bool {
    e is ScriptExecuted || (e matches EventView::Artifact { executable, .. } && executable is None)
}

pub open spec fn is_failure(e: EventView) -> bool {
    e matches EventView::Finished { success } && !success
}

pub open spec fn names_executable(e: EventView) -> bool {
    e matches EventView::Artifact { executable, .. } && executable is Some
}

pub open spec fn is_error_text(e: EventView) -> bool {
    e matches EventView::TextLine(l) && opens_error(l)
}

pub open spec fn initial_state(expected_units: nat) -> ParserView {
    ParserView {
        expected_units,
        units_compiled: 0,
        emitting_error: false,
        direct_rustc: seq![],
        output_location: None,
    }
}

/// The result of a stream that ended in state `s` without a failure.
pub open spec fn outcome_ok(s: ParserView, r: Result<CargoBuildResult, BuildError>) -> bool {
    match s.output_location {
        Some(p) => r matches Ok(res) && res.exe@ == p && res.rustc_args.deep_view()
            == s.direct_rustc,
        None => r == Err::<CargoBuildResult, BuildError>(BuildError::NoExecutable),
    }
}

/// `r` is the status or the error that `v` describes.
pub open spec fn result_view_is(
    r: Result<BuildStatus, BuildError>,
    v: Result<StatusView, BuildError>,
) -> bool {
    match (r, v) {
        (Ok(st), Ok(sv)) => st@ == sv,
        (Err(e), Err(ev)) => e == ev,
        _ => false,
    }
}

impl EventParser {
    /// A parser for a stream whose progress counts against `expected_units`.
    pub fn new(expected_units: usize) -> (r: EventParser)
        ensures
            r@ == initial_state(expected_units as nat),
    {
        let r = EventParser {
            expected_units,
            units_compiled: 0,
            emitting_error: false,
            direct_rustc: Vec::new(),
            output_location: None,
        };
        assert(r@.direct_rustc =~= seq![]);
        r
    }

    /// Takes in a text line, where `words` is what its reported invocation
    /// splits into: those words are captured when the line reports one.
    pub fn record_text_line(&mut self, line: String, words: Option<Vec<String>>) -> (r: BuildStatus)
        ensures
            final(self)@ == text_step(old(self)@, line@, words_view(words)),
            r@ == text_status(old(self)@, line@),
    {
        let ghost before = self.direct_rustc.deep_view();
        let running = invocation_text(line.as_str());
        match (running, words) {
            (Some(_), Some(w)) => {
                self.direct_rustc.push(w);
                assert(self.direct_rustc.deep_view() =~= before.push(words_view(Some(w))->0));
            },
            _ => {},
        }
        if is_error_line(line.as_str()) {
            self.emitting_error = true;
        }
        if self.emitting_error {
            BuildStatus::Error(line)
        } else {
            BuildStatus::Message(line)
        }
    }

    /// Takes in one event: counts units, captures invocations, records the
    /// executable, and says what to report. A build that finished in failure
    /// is an error, whatever came before.
    pub fn handle_event(&mut self, event: BuildEvent) -> (r: Result<BuildStatus, BuildError>)
        requires
            counts_unit(event@) ==> old(self).units_compiled < usize::MAX,
        ensures
            final(self)@ == step(old(self)@, event@),
            result_view_is(r, step_result(old(self)@, event@)),
    {
        match event {
            BuildEvent::ScriptExecuted => {
                self.units_compiled = self.units_compiled + 1;
                Ok(BuildStatus::Quiet)
            },
            BuildEvent::TextLine(line) => {
                let words = match invocation_text(line.as_str()) {
                    Some(args) => shell_split(args),
                    None => None,
                };
                Ok(self.record_text_line(line, words))
            },
            BuildEvent::Diagnostic { level, code, message, rendered } => Ok(
                BuildStatus::Diagnostic { level, code, message, rendered },
            ),
            BuildEvent::Artifact { executable, target_name } => match executable {
                Some(p) => {
                    self.output_location = Some(p);
                    Ok(BuildStatus::Quiet)
                },
                None => {
                    self.units_compiled = self.units_compiled + 1;
                    Ok(
                        BuildStatus::Progress {
                            compiled: self.units_compiled,
                            total: self.expected_units,
                            name: target_name,
                        },
                    )
                },
            },
            BuildEvent::Finished { success } => {
                if success {
                    Ok(BuildStatus::Quiet)
                } else {
                    Err(BuildError::CargoFailed)
                }
            },
            BuildEvent::Other => Ok(BuildStatus::Quiet),
        }
    }

    /// Takes in one line of output. A line that gives no event is dropped. A
    /// line whose JSON nests deeper than `max_nesting()` is no cargo message
    /// this parser can read safely, and is taken as a text line.
    pub fn handle_line(&mut self, line: &str) -> (r: Result<BuildStatus, BuildError>)
        requires
            old(self).units_compiled < usize::MAX,
        ensures
            json_depth(line@) > max_nesting() ==> final(self)@ == step(
                old(self)@,
                EventView::TextLine(line@),
            ) && result_view_is(r, step_result(old(self)@, EventView::TextLine(line@))),
            json_depth(line@) <= max_nesting() ==> match cargo_event_of(line@) {
                Some(e) => final(self)@ == step(old(self)@, e) && result_view_is(
                    r,
                    step_result(old(self)@, e),
                ),
                None => final(self)@ == old(self)@ && (r matches Ok(st) && st@ == StatusView::Quiet),
            },
    {
        if !depth_within_limit(line) {
            return self.handle_event(BuildEvent::TextLine(String::from_str(line)));
        }
        match parse_event(line) {
            Some(event) => self.handle_event(event),
            None => Ok(BuildStatus::Quiet),
        }
    }

    /// The result once the stream is exhausted: the last executable reported
    /// and the captured invocations, or an error where no executable came.
    pub fn finish(self) -> (r: Result<CargoBuildResult, BuildError>)
        ensures
            outcome_ok(self@, r),
    {
        match self.output_location {
            Some(exe) => Ok(CargoBuildResult { rustc_args: self.direct_rustc, exe }),
            None => Err(BuildError::NoExecutable),
        }
    }
}

pub open spec fn event_views(s: Seq<BuildEvent>) -> Seq<EventView> {
    s.map_values(|e: BuildEvent| e@)
}

/// Some event of `s` reports a failed build.
pub open spec fn any_failure(s: Seq<EventView>) -> bool {
    exists|i: int| 0 <= i < s.len() && is_failure(#[trigger] s[i])
}

/// Runs a whole event stream through a fresh parser: the first failure ends
/// the build with an error; otherwise the outcome is what the final state holds.
pub fn drain(events: Vec<BuildEvent>, expected_units: usize) -> (r: Result<CargoBuildResult, BuildError>)
    ensures
        any_failure(event_views(events@)) ==> r == Err::<CargoBuildResult, BuildError>(
            BuildError::CargoFailed,
        ),
        !any_failure(event_views(events@)) ==> outcome_ok(
            run(initial_state(expected_units as nat), event_views(events@)),
            r,
        ),
{
    let ghost orig = events@;
    let ghost all = event_views(events@);
    let ghost init = initial_state(expected_units as nat);
    let n = events.len();
    let mut rest = events;
    let mut parser = EventParser::new(expected_units);
    let mut i: usize = 0;
    while i < n
        invariant
            n == all.len(),
            i <= n,
            rest@.len() == n - i,
            forall|k: int| 0 <= k < rest@.len() ==> #[trigger] rest@[k]@ == all[i + k],
            parser@ == run(init, all.subrange(0, i as int)),
            parser.units_compiled <= i,
            forall|k: int| 0 <= k < i ==> !is_failure(#[trigger] all[k]),
            all == event_views(orig),
            orig == events@,
        decreases n - i,
    {
        let ghost before = rest@;
        let event = rest.remove(0);
        assert(event@ == all[i as int]);
        assert forall|k: int| 0 <= k < rest@.len() implies #[trigger] rest@[k]@ == all[i + 1 + k] by {
            assert(rest@[k] == before[k + 1]);
        }
        let ghost ev = event@;
        assert(all.subrange(0, i + 1).drop_last() =~= all.subrange(0, i as int));
        match parser.handle_event(event) {
            Ok(_) => {},
            Err(e) => {
                assert(is_failure(ev));
                assert(is_failure(all[i as int]));
                assert(any_failure(all));

                return Err(e);
            },
        }
        i = i + 1;
    }
    assert(all.subrange(0, n as int) =~= all);
    parser.finish()
}

/// The text of a text-line event.
pub open spec fn text_of(e: EventView) -> Seq<char> {
    match e {
        EventView::TextLine(l) => l,
        _ => Seq::empty(),
    }
}

/// The executable an artifact event names.
pub open spec fn artifact_exe(e: EventView) -> Option<Seq<char>> {
    match e {
        EventView::Artifact { executable, .. } => executable,
        _ => None,
    }
}

/// The error latch after a run is set exactly where it was set at the start
/// or some text line of the run opened an error.
pub proof fn lemma_latch_exact(s: ParserView, es: Seq<EventView>)
    ensures
        run(s, es).emitting_error == (s.emitting_error || exists|m: int|
            0 <= m < es.len() && is_error_text(#[trigger] es[m])),
    decreases es.len(),
{
    if es.len() > 0 {
        let d = es.drop_last();
        lemma_latch_exact(s, d);
        if exists|m: int| 0 <= m < d.len() && is_error_text(#[trigger] d[m]) {
            let m = choose|m: int| 0 <= m < d.len() && is_error_text(#[trigger] d[m]);
            assert(es[m] == d[m]);
        }
        if exists|m: int| 0 <= m < es.len() && is_error_text(#[trigger] es[m]) {
            let m = choose|m: int| 0 <= m < es.len() && is_error_text(#[trigger] es[m]);
            if m < es.len() - 1 {
                assert(d[m] == es[m]);
            }
        }
        if is_error_text(es.last()) {
            assert(is_error_text(es[es.len() - 1]));
        }
    }
}

/// Once a text line has opened an error, every later text line of the same
/// stream is reported as an error, whatever it says.
pub proof fn lemma_error_latch_sticky(s: ParserView, es: Seq<EventView>, i: int, j: int)
    requires
        0 <= i < j < es.len(),
        is_error_text(es[i]),
        es[j] is TextLine,
    ensures
        step_result(run(s, es.subrange(0, j)), es[j]) == Ok::<StatusView, BuildError>(
            StatusView::Error(text_of(es[j])),
        ),
{
    lemma_latch_exact(s, es.subrange(0, j));
    assert(es.subrange(0, j)[i] == es[i]);
}

/// Before any text line has opened an error, a text line is reported as an
/// error only where it opens one itself.
pub proof fn lemma_no_latch_before_error(s: ParserView, es: Seq<EventView>, j: int)
    requires
        !s.emitting_error,
        0 <= j < es.len(),
        es[j] is TextLine,
        forall|m: int| 0 <= m < j ==> !is_error_text(#[trigger] es[m]),
    ensures
        step_result(run(s, es.subrange(0, j)), es[j]) == Ok::<StatusView, BuildError>(
            if opens_error(text_of(es[j])) {
                StatusView::Error(text_of(es[j]))
            } else {
                StatusView::Message(text_of(es[j]))
            },
        ),
{
    let p = es.subrange(0, j);
    lemma_latch_exact(s, p);
    if exists|m: int| 0 <= m < p.len() && is_error_text(#[trigger] p[m]) {
        let m = choose|m: int| 0 <= m < p.len() && is_error_text(#[trigger] p[m]);
        assert(p[m] == es[m]);
    }
}

/// The executable a run ends with is the one named by the last artifact
/// event that names one: a later one replaces an earlier one.
pub proof fn lemma_last_artifact_wins(s: ParserView, es: Seq<EventView>, k: int)
    requires
        0 <= k < es.len(),
        names_executable(es[k]),
        forall|m: int| k < m < es.len() ==> !names_executable(#[trigger] es[m]),
    ensures
        run(s, es).output_location == artifact_exe(es[k]),
    decreases es.len(),
{
    if k < es.len() - 1 {
        let d = es.drop_last();
        assert forall|m: int| k < m < d.len() implies !names_executable(#[trigger] d[m]) by {
            assert(d[m] == es[m]);
        }
        assert(d[k] == es[k]);
        lemma_last_artifact_wins(s, d, k);
        assert(!names_executable(es[es.len() - 1]));
    }
}

/// A build-finished event that reports failure is an error in every state.
pub proof fn lemma_failure_is_fatal(s: ParserView, e: EventView)
    requires
        is_failure(e),
    ensures
        step_result(s, e) == Err::<StatusView, BuildError>(BuildError::CargoFailed),
{
}

} // verus!
