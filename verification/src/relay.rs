//! The event relay of a worker process.
//!
//! A worker writes lines to its standard output and standard error. The relay
//! turns each line into at most one event for the subscribers, remembers the
//! final payload that the worker announces, and closes the stream with one
//! `Done` event. Running the process and reading its pipes is the caller's
//! part: the relay is handed the lines and says what to publish.

use vstd::prelude::*;
use vstd::string::StringExecFns;
use crate::json::{is_json_object, json_text_member, parse_member, text_member};
use crate::text::{same_text, text_of, text_of_slice, trim_end, trimmed_end, views};

verus! {

/// Identifiers that a caller attaches to one relay run. The relay hands them
/// on with the events and never looks inside.
#[derive(Debug, PartialEq, Eq)]
pub struct CorrelationContext {
    pub meeting_id: String,
    pub selection_id: Option<String>,
}

/// The characters of a `CorrelationContext`.
pub struct ContextView {
    pub meeting_id: Seq<char>,
    pub selection_id: Option<Seq<char>>,
}

impl View for CorrelationContext {
    type V = ContextView;

    open spec fn view(&self) -> ContextView {
        ContextView { meeting_id: self.meeting_id@, selection_id: text_of(self.selection_id) }
    }
}

impl Clone for CorrelationContext {
    fn clone(&self) -> (r: Self)
        ensures
            r@ == self@,
    {
        let selection_id = match &self.selection_id {
            Some(id) => Some(id.clone()),
            None => None,
        };
        CorrelationContext { meeting_id: self.meeting_id.clone(), selection_id }
    }
}

/// What the relay publishes.
#[allow(inconsistent_fields)]
#[derive(Debug, PartialEq, Eq)]
pub enum SubprocessEvent {
    /// A line of diagnostics: any line of standard error, and any line of
    /// standard output that is no JSON object.
    Log { line: String },
    /// A JSON object that the worker wrote, as its text.
    Delta { payload: String, context: CorrelationContext },
    /// A JSON object of type `final` with a text `content`: the worker's
    /// result. It carries the whole object like a `Delta`.
    Final { content: String, payload: String, context: CorrelationContext },
    /// The worker could not be started, or ended without success.
    Error { message: String },
    /// The end of the stream, with the last result that the worker announced.
    Done { content: Option<String>, context: CorrelationContext },
}

/// The characters of a `SubprocessEvent`.
#[allow(inconsistent_fields)]
pub enum EventView {
    Log { line: Seq<char> },
    Delta { payload: Seq<char>, context: ContextView },
    Final { content: Seq<char>, payload: Seq<char>, context: ContextView },
    Error { message: Seq<char> },
    Done { content: Option<Seq<char>>, context: ContextView },
}

impl View for SubprocessEvent {
    type V = EventView;

    open spec fn view(&self) -> EventView {
        match self {
            SubprocessEvent::Log { line } => EventView::Log { line: line@ },
            SubprocessEvent::Delta { payload, context } => EventView::Delta {
                payload: payload@,
                context: context@,
            },
            SubprocessEvent::Final { content, payload, context } => EventView::Final {
                content: content@,
                payload: payload@,
                context: context@,
            },
            SubprocessEvent::Error { message } => EventView::Error { message: message@ },
            SubprocessEvent::Done { content, context } => EventView::Done {
                content: text_of(*content),
                context: context@,
            },
        }
    }
}

/// The view of an event that may be absent.
pub open spec fn event_of(event: Option<SubprocessEvent>) -> Option<EventView> {
    match event {
        Some(e) => Some(e@),
        None => None,
    }
}

/// The views of a list of events.
pub open spec fn events_of(events: Seq<SubprocessEvent>) -> Seq<EventView> {
    events.map_values(|e: SubprocessEvent| e@)
}

/// What was read of one line of standard output.
#[derive(Debug, PartialEq, Eq)]
pub struct LineReading {
    /// The line is a JSON object.
    pub is_object: bool,
    /// The text of its member `type`.
    pub kind: Option<String>,
    /// The text of its member `content`.
    pub content: Option<String>,
}

/// The characters of a `LineReading`.
pub struct LineReadingView {
    pub is_object: bool,
    pub kind: Option<Seq<char>>,
    pub content: Option<Seq<char>>,
}

impl View for LineReading {
    type V = LineReadingView;

    open spec fn view(&self) -> LineReadingView {
        LineReadingView {
            is_object: self.is_object,
            kind: text_of(self.kind),
            content: text_of(self.content),
        }
    }
}

/// What is read of `payload`: whether it is a JSON object, and the texts of
/// its members `type` and `content`.
pub open spec fn line_reading(payload: Seq<char>) -> LineReadingView {
    LineReadingView {
        is_object: is_json_object(payload),
        kind: json_text_member(payload, "type"@),
        content: json_text_member(payload, "content"@),
    }
}

/// The result that a line announces: the text `content` of an object whose
/// `type` is the text `final`.
pub open spec fn reading_result(reading: LineReadingView) -> Option<Seq<char>> {
    if reading.is_object && reading.kind == Some("final"@) {
        reading.content
    } else {
        None
    }
}

/// The event for a line that was read. A line that is no object is
/// diagnostics; an object is published as it is, as a `Final` where it
/// announces a result and as a `Delta` otherwise.
pub open spec fn reading_event(
    payload: Seq<char>,
    reading: LineReadingView,
    context: ContextView,
) -> EventView {
    if !reading.is_object {
        EventView::Log { line: payload }
    } else {
        match reading_result(reading) {
            Some(content) => EventView::Final { content, payload, context },
            None => EventView::Delta { payload, context },
        }
    }
}

/// The final payload after one more line was read: the line's own where it
/// announces one, else the one held before.
pub open spec fn kept_final(held: Option<Seq<char>>, reading: LineReadingView) -> Option<
    Seq<char>,
> {
    match reading_result(reading) {
        Some(content) => Some(content),
        None => held,
    }
}

/// The result that the text `line` announces.
pub open spec fn final_content(line: Seq<char>) -> Option<Seq<char>> {
    reading_result(line_reading(line))
}

/// The event for one line of standard output. Trailing whitespace does not
/// count, and a line left empty gives no event.
pub open spec fn stdout_event(line: Seq<char>, context: ContextView) -> Option<EventView> {
    let payload = trimmed_end(line);
    if payload.len() == 0 {
        None
    } else {
        Some(reading_event(payload, line_reading(payload), context))
    }
}

/// The final payload after one more line of standard output.
pub open spec fn captured_final(held: Option<Seq<char>>, line: Seq<char>) -> Option<Seq<char>> {
    let payload = trimmed_end(line);
    if payload.len() == 0 {
        held
    } else {
        kept_final(held, line_reading(payload))
    }
}

/// The message of the `Error` event for a worker that ended without success.
pub open spec fn exit_failure_message(stderr: Seq<char>) -> Seq<char> {
    "Copilot SDK failed: "@ + stderr
}

/// The message of the `Error` event for a worker that could not be started.
pub open spec fn spawn_failure_message(detail: Seq<char>) -> Seq<char> {
    "Failed to start Copilot SDK: "@ + detail
}

/// The state of one relay run.
#[derive(Debug, PartialEq, Eq)]
pub struct Relay {
    pub context: CorrelationContext,
    pub final_payload: Option<String>,
}

/// The characters of a `Relay`.
pub struct RelayView {
    pub context: ContextView,
    pub final_payload: Option<Seq<char>>,
}

impl View for Relay {
    type V = RelayView;

    open spec fn view(&self) -> RelayView {
        RelayView { context: self.context@, final_payload: text_of(self.final_payload) }
    }
}

/// The events that close a run: an `Error` with the captured standard error
/// where the worker ended without success, then in every case one `Done`.
pub open spec fn closing_events(relay: RelayView, failure: Option<Seq<char>>) -> Seq<EventView> {
    let done = EventView::Done { content: relay.final_payload, context: relay.context };
    match failure {
        Some(stderr) => seq![EventView::Error { message: exit_failure_message(stderr) }, done],
        None => seq![done],
    }
}

/// The event for one line of standard error: always a `Log` of the line as
/// it is.
pub fn stderr_event(line: &str) -> (event: SubprocessEvent)
    ensures
        event@ == (EventView::Log { line: line@ }),
{
    SubprocessEvent::Log { line: line.to_owned() }
}

/// The one event of a run whose worker could not be started. No `Done`
/// follows it.
pub fn spawn_failure_event(detail: &str) -> (event: SubprocessEvent)
    ensures
        event@ == (EventView::Error { message: spawn_failure_message(detail@) }),
{
    let mut message = "Failed to start Copilot SDK: ".to_owned();
    message.append(detail);
    SubprocessEvent::Error { message }
}

/// Reads one line of standard output: whether it is a JSON object, and what
/// its members `type` and `content` hold.
pub fn read_line(payload: &str) -> (reading: LineReading)
    ensures
        reading@ == line_reading(payload@),
{
    let kind = match parse_member(payload, "type") {
        Ok(facts) => {
            if !facts.is_object {
                return LineReading { is_object: false, kind: None, content: None };
            }
            facts.member
        },
        Err(_) => {
            return LineReading { is_object: false, kind: None, content: None };
        },
    };
    LineReading { is_object: true, kind, content: text_member(payload, "content") }
}

/// The result that a line announces, from what was read of it.
pub fn result_of(reading: LineReading) -> (content: Option<String>)
    ensures
        text_of(content) == reading_result(reading@),
{
    if !reading.is_object {
        return None;
    }
    let announced = match reading.kind {
        Some(kind) => same_text(kind.as_str(), "final"),
        None => false,
    };
    if announced {
        reading.content
    } else {
        None
    }
}

/// The result that the text `payload` announces, if it announces one.
pub fn announced_result(payload: &str) -> (content: Option<String>)
    ensures
        text_of(content) == final_content(payload@),
{
    result_of(read_line(payload))
}

impl Relay {
    /// A run that has seen no line yet.
    pub fn new(context: CorrelationContext) -> (relay: Relay)
        ensures
            relay@ == (RelayView { context: context@, final_payload: None }),
    {
        Relay { context, final_payload: None }
    }

    /// Takes a line that was read. Returns the event to publish and keeps the
    /// final payload where the line announces one.
    pub fn accept(&mut self, payload: String, reading: LineReading) -> (event: SubprocessEvent)
        ensures
            event@ == reading_event(payload@, reading@, old(self)@.context),
            final(self)@.context == old(self)@.context,
            final(self)@.final_payload == kept_final(old(self)@.final_payload, reading@),
    {
        if !reading.is_object {
            return SubprocessEvent::Log { line: payload };
        }
        match result_of(reading) {
            Some(content) => {
                self.final_payload = Some(content.clone());
                SubprocessEvent::Final { content, payload, context: self.context.clone() }
            },
            None => SubprocessEvent::Delta { payload, context: self.context.clone() },
        }
    }

    /// Takes one line of standard output. Returns the event to publish, if
    /// any, and keeps the final payload where the line announces one.
    pub fn stdout_line(&mut self, line: &str) -> (event: Option<SubprocessEvent>)
        ensures
            event_of(event) == stdout_event(line@, old(self)@.context),
            final(self)@.context == old(self)@.context,
            final(self)@.final_payload == captured_final(old(self)@.final_payload, line@),
    {
        let payload = trim_end(line);
        if payload.as_str().is_empty() {
            return None;
        }
        let reading = read_line(payload.as_str());
        Some(self.accept(payload, reading))
    }

    /// Ends the run. `failure` holds the captured standard error where the
    /// worker ended without success.
    pub fn finish(self, failure: Option<&str>) -> (events: Vec<SubprocessEvent>)
        ensures
            events_of(events@) == closing_events(self@, text_of_slice(failure)),
    {
        let mut events: Vec<SubprocessEvent> = Vec::new();
        match failure {
            Some(stderr) => {
                let mut message = "Copilot SDK failed: ".to_owned();
                message.append(stderr);
                events.push(SubprocessEvent::Error { message });
            },
            None => {},
        }
        events.push(SubprocessEvent::Done { content: self.final_payload, context: self.context });
        events
    }
}

/// Where an event goes.
#[derive(Clone, Copy, Debug, PartialEq, Eq, Structural)]
pub enum Channel {
    Log,
    Delta,
    Error,
    Done,
}

/// The channel of an event. A `Final` is published like every other object
/// that the worker wrote.
pub open spec fn channel_of(event: EventView) -> Channel {
    match event {
        EventView::Log { .. } => Channel::Log,
        EventView::Delta { .. } => Channel::Delta,
        EventView::Final { .. } => Channel::Delta,
        EventView::Error { .. } => Channel::Error,
        EventView::Done { .. } => Channel::Done,
    }
}

impl SubprocessEvent {
    /// The channel on which the event is published.
    pub fn channel(&self) -> (r: Channel)
        ensures
            r == channel_of(self@),
    {
        match self {
            SubprocessEvent::Log { .. } => Channel::Log,
            SubprocessEvent::Delta { .. } => Channel::Delta,
            SubprocessEvent::Final { .. } => Channel::Delta,
            SubprocessEvent::Error { .. } => Channel::Error,
            SubprocessEvent::Done { .. } => Channel::Done,
        }
    }
}

/// The operations that stream their events.
#[derive(Clone, Copy, Debug, PartialEq, Eq, Structural)]
pub enum Stream {
    Summary,
    Enhance,
    CleanTranscript,
}

impl Stream {
    /// The name under which subscribers receive the events of a channel.
    /// Diagnostics of every stream share one name.
    pub open spec fn event_name_spec(self, channel: Channel) -> Seq<char> {
        match (self, channel) {
            (_, Channel::Log) => "summary-log"@,
            (Stream::Summary, Channel::Delta) => "summary-delta"@,
            (Stream::Summary, Channel::Error) => "summary-error"@,
            (Stream::Summary, Channel::Done) => "summary-done"@,
            (Stream::Enhance, Channel::Delta) => "enhance-delta"@,
            (Stream::Enhance, Channel::Error) => "enhance-error"@,
            (Stream::Enhance, Channel::Done) => "enhance-done"@,
            (Stream::CleanTranscript, Channel::Delta) => "clean-transcript-delta"@,
            (Stream::CleanTranscript, Channel::Error) => "clean-transcript-error"@,
            (Stream::CleanTranscript, Channel::Done) => "clean-transcript-done"@,
        }
    }

    /// The name under which subscribers receive the events of a channel.
    pub fn event_name(self, channel: Channel) -> (r: &'static str)
        ensures
            r@ == self.event_name_spec(channel),
    {
        match channel {
            Channel::Log => "summary-log",
            Channel::Delta => match self {
                Stream::Summary => "summary-delta",
                Stream::Enhance => "enhance-delta",
                Stream::CleanTranscript => "clean-transcript-delta",
            },
            Channel::Error => match self {
                Stream::Summary => "summary-error",
                Stream::Enhance => "enhance-error",
                Stream::CleanTranscript => "clean-transcript-error",
            },
            Channel::Done => match self {
                Stream::Summary => "summary-done",
                Stream::Enhance => "enhance-done",
                Stream::CleanTranscript => "clean-transcript-done",
            },
        }
    }

    /// The name of the member that carries the result in a `Done` event.
    pub open spec fn result_field_spec(self) -> Seq<char> {
        match self {
            Stream::Summary => "summary"@,
            _ => "text"@,
        }
    }

    /// The name of the member that carries the result in a `Done` event.
    pub fn result_field(self) -> (r: &'static str)
        ensures
            r@ == self.result_field_spec(),
    {
        match self {
            Stream::Summary => "summary",
            _ => "text",
        }
    }
}

/// The environment variable that tells a worker to stream its events, and
/// the value it is set to.
pub fn streaming_flag() -> (flag: (&'static str, &'static str))
    ensures
        flag.0@ == "STREAMING"@,
        flag.1@ == "1"@,
{
    ("STREAMING", "1")
}

/// The events of a whole run: those of the lines of standard output, in
/// order, followed by the closing events.
pub open spec fn run_events(
    context: ContextView,
    lines: Seq<Seq<char>>,
    failure: Option<Seq<char>>,
) -> Seq<EventView> {
    line_events(context, lines) + closing_events(
        RelayView { context, final_payload: last_final(None, lines) },
        failure,
    )
}

/// The events of the lines of standard output, in order.
pub open spec fn line_events(context: ContextView, lines: Seq<Seq<char>>) -> Seq<EventView>
    decreases lines.len(),
{
    if lines.len() == 0 {
        Seq::empty()
    } else {
        let before = line_events(context, lines.drop_last());
        match stdout_event(lines.last(), context) {
            Some(event) => before.push(event),
            None => before,
        }
    }
}

/// The final payload after `lines`, starting from `held`: the latest that a
/// line announces.
pub open spec fn last_final(held: Option<Seq<char>>, lines: Seq<Seq<char>>) -> Option<Seq<char>>
    decreases lines.len(),
{
    if lines.len() == 0 {
        held
    } else {
        captured_final(last_final(held, lines.drop_last()), lines.last())
    }
}

/// Runs the relay over the recorded output of a worker: every line of
/// standard output in order, then the end of the run.
pub fn replay(context: CorrelationContext, lines: &Vec<String>, failure: Option<&str>) -> (events:
    Vec<SubprocessEvent>)
    ensures
        events_of(events@) == run_events(context@, views(lines@), text_of_slice(failure)),
{
    let ghost recorded = views(lines@);
    let ghost tagged = context@;
    let mut relay = Relay::new(context);
    let mut events: Vec<SubprocessEvent> = Vec::new();
    let mut i: usize = 0;
    proof {
        assert(events_of(events@) =~= line_events(tagged, recorded.take(0)));
    }
    while i < lines.len()
        invariant
            i <= lines@.len(),
            recorded == views(lines@),
            relay@.context == tagged,
            relay@.final_payload == last_final(None, recorded.take(i as int)),
            events_of(events@) == line_events(tagged, recorded.take(i as int)),
        decreases lines@.len() - i,
    {
        proof {
            assert(recorded.take(i + 1).drop_last() =~= recorded.take(i as int));
            assert(recorded.take(i + 1).last() == lines@[i as int]@);
        }
        match relay.stdout_line(lines[i].as_str()) {
            Some(event) => {
                proof {
                    assert(events_of(events@.push(event)) =~= events_of(events@).push(event@));
                }
                events.push(event);
            },
            None => {},
        }
        i += 1;
    }
    proof {
        assert(recorded.take(i as int) =~= recorded);
    }
    let ghost before = events@;
    let mut closing = relay.finish(failure);
    let ghost ending = closing@;
    events.append(&mut closing);
    proof {
        assert(events@ == before + ending);
        assert(events_of(events@) =~= events_of(before) + events_of(ending));
    }
    events
}

/// A line that is no JSON object is never an error and never ends the run:
/// it is published as a `Log` of the line without its trailing whitespace,
/// and the final payload stays as it was.
pub proof fn malformed_line_is_logged(
    line: Seq<char>,
    context: ContextView,
    held: Option<Seq<char>>,
)
    requires
        trimmed_end(line).len() > 0,
        !is_json_object(trimmed_end(line)),
    ensures
        stdout_event(line, context) == Some(EventView::Log { line: trimmed_end(line) }),
        captured_final(held, line) == held,
{
}

/// A line of standard output never gives an `Error` or a `Done`.
pub proof fn lines_never_end_the_run(line: Seq<char>, context: ContextView)
    ensures
        stdout_event(line, context) matches Some(event) ==> channel_of(event) == Channel::Log
            || channel_of(event) == Channel::Delta,
{
}

/// Every run that started ends with exactly one `Done`, whatever the worker
/// wrote and however it ended: the last event is a `Done` that carries the
/// latest final payload, and no event before it is one.
pub proof fn run_ends_with_one_done(
    context: ContextView,
    lines: Seq<Seq<char>>,
    failure: Option<Seq<char>>,
)
    ensures
        run_events(context, lines, failure).len() > 0,
        run_events(context, lines, failure).last() == (EventView::Done {
            content: last_final(None, lines),
            context,
        }),
        forall|i: int|
            0 <= i < run_events(context, lines, failure).len() - 1 ==> channel_of(
                #[trigger] run_events(context, lines, failure)[i],
            ) != Channel::Done,
        failure is Some ==> run_events(context, lines, failure).len() >= 2 && channel_of(
            run_events(context, lines, failure)[run_events(context, lines, failure).len() - 2],
        ) == Channel::Error,
{
    lemma_line_events_channels(context, lines);
}

/// The events of lines of standard output are diagnostics and objects only.
proof fn lemma_line_events_channels(context: ContextView, lines: Seq<Seq<char>>)
    ensures
        forall|i: int|
            0 <= i < line_events(context, lines).len() ==> channel_of(
                #[trigger] line_events(context, lines)[i],
            ) != Channel::Done && channel_of(line_events(context, lines)[i]) != Channel::Error,
    decreases lines.len(),
{
    if lines.len() > 0 {
        lemma_line_events_channels(context, lines.drop_last());
        lines_never_end_the_run(lines.last(), context);
    }
}

/// The latest announcement wins: after a line that announces a result, that
/// result is the final payload, whatever came before.
pub proof fn latest_final_wins(held: Option<Seq<char>>, lines: Seq<Seq<char>>, line: Seq<char>)
    requires
        trimmed_end(line).len() > 0,
        final_content(trimmed_end(line)) is Some,
    ensures
        last_final(held, lines.push(line)) == final_content(trimmed_end(line)),
{
    assert(lines.push(line).drop_last() =~= lines);
}

} // verus!
