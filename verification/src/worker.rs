//! Worker scripts that run to their end before anything is read: what they
//! are handed, and what their output means.

use vstd::prelude::*;
use vstd::string::StringExecFns;
use crate::error::{Document, Failure, FailureView, Operation, Program, text_result};
use crate::json::{json_parses, parse_member};
use crate::relay::{
    line_reading, read_line, reading_result, result_of, LineReading, LineReadingView,
};
use crate::text::{line_pieces, split_lines, text_of, trim, trimmed, views};

verus! {

impl Operation {
    /// The file name of the script that does the work.
    pub open spec fn script_name_spec(self) -> Seq<char> {
        match self {
            Operation::Summary => "copilot-summary.mjs"@,
            Operation::Enhance => "copilot-enhance.mjs"@,
            Operation::CleanTranscript => "copilot-clean-transcript.mjs"@,
            Operation::Actions => "copilot-actions.mjs"@,
            Operation::Models => "copilot-models.mjs"@,
        }
    }

    /// The file name of the script that does the work.
    pub fn script_name(self) -> (r: &'static str)
        ensures
            r@ == self.script_name_spec(),
    {
        match self {
            Operation::Summary => "copilot-summary.mjs",
            Operation::Enhance => "copilot-enhance.mjs",
            Operation::CleanTranscript => "copilot-clean-transcript.mjs",
            Operation::Actions => "copilot-actions.mjs",
            Operation::Models => "copilot-models.mjs",
        }
    }

    /// What follows the identifier of a call in the name of its request
    /// file. The script that lists the models takes no request.
    pub open spec fn payload_suffix_spec(self) -> Option<Seq<char>> {
        match self {
            Operation::Summary => Some("_summary.json"@),
            Operation::Enhance => Some("_enhance.json"@),
            Operation::CleanTranscript => Some("_clean_transcript.json"@),
            Operation::Actions => Some("_actions.json"@),
            Operation::Models => None,
        }
    }

    /// What follows the identifier of a call in the name of its request
    /// file.
    pub fn payload_suffix(self) -> (r: Option<&'static str>)
        ensures
            match r {
                Some(suffix) => self.payload_suffix_spec() == Some(suffix@),
                None => self.payload_suffix_spec() is None,
            },
    {
        match self {
            Operation::Summary => Some("_summary.json"),
            Operation::Enhance => Some("_enhance.json"),
            Operation::CleanTranscript => Some("_clean_transcript.json"),
            Operation::Actions => Some("_actions.json"),
            Operation::Models => None,
        }
    }

    /// The name of the request file of the call with identifier `id`.
    pub fn payload_file_name(self, id: &str) -> (r: Option<String>)
        ensures
            match r {
                Some(name) => self.payload_suffix_spec() is Some && name@ == id@
                    + self.payload_suffix_spec()->Some_0,
                None => self.payload_suffix_spec() is None,
            },
    {
        match self.payload_suffix() {
            Some(suffix) => {
                let mut name = id.to_owned();
                name.append(suffix);
                Some(name)
            },
            None => None,
        }
    }
}

/// The program that runs the worker scripts.
pub fn script_runtime() -> (r: &'static str)
    ensures
        r@ == "node"@,
{
    "node"
}

/// The model that summarizes where the caller names none.
pub open spec fn fallback_model() -> Seq<char> {
    "gpt-4.1"@
}

/// The headings of a summary, in order.
pub open spec fn summary_section_names() -> Seq<Seq<char>> {
    seq!["Agenda"@, "Summary"@, "Decisions"@, "Risks"@, "Actions"@]
}

/// The headings of a summary, in order.
pub fn summary_sections() -> (names: Vec<String>)
    ensures
        views(names@) == summary_section_names(),
{
    let mut names: Vec<String> = Vec::new();
    names.push("Agenda".to_owned());
    names.push("Summary".to_owned());
    names.push("Decisions".to_owned());
    names.push("Risks".to_owned());
    names.push("Actions".to_owned());
    proof {
        assert(views(names@) =~= summary_section_names());
    }
    names
}

/// What a worker is handed in its request file.
#[derive(Debug, PartialEq, Eq)]
pub enum WorkerRequest {
    /// For a summary: the material, the headings and the model.
    Summary { transcript: String, notes: String, sections: Vec<String>, model: String },
    /// For enhancing a text or cleaning a transcript.
    Text { text: String, model: String },
    /// For extracting action items.
    Actions { transcript: String, notes: String, model: String },
}

/// The characters of a `WorkerRequest`.
pub enum WorkerRequestView {
    Summary { transcript: Seq<char>, notes: Seq<char>, sections: Seq<Seq<char>>, model: Seq<char> },
    Text { text: Seq<char>, model: Seq<char> },
    Actions { transcript: Seq<char>, notes: Seq<char>, model: Seq<char> },
}

impl View for WorkerRequest {
    type V = WorkerRequestView;

    open spec fn view(&self) -> WorkerRequestView {
        match self {
            WorkerRequest::Summary { transcript, notes, sections, model } => {
                WorkerRequestView::Summary {
                    transcript: transcript@,
                    notes: notes@,
                    sections: views(sections@),
                    model: model@,
                }
            },
            WorkerRequest::Text { text, model } => WorkerRequestView::Text {
                text: text@,
                model: model@,
            },
            WorkerRequest::Actions { transcript, notes, model } => WorkerRequestView::Actions {
                transcript: transcript@,
                notes: notes@,
                model: model@,
            },
        }
    }
}

/// The request for a summary. Without a model the fallback model is asked.
pub fn summary_request(transcript: String, notes: String, model: Option<String>) -> (request:
    WorkerRequest)
    ensures
        request@ == (WorkerRequestView::Summary {
            transcript: transcript@,
            notes: notes@,
            sections: summary_section_names(),
            model: match model {
                Some(name) => name@,
                None => fallback_model(),
            },
        }),
{
    let model = match model {
        Some(name) => name,
        None => "gpt-4.1".to_owned(),
    };
    WorkerRequest::Summary { transcript, notes, sections: summary_sections(), model }
}

/// What a process left behind when it ended.
#[derive(Debug, PartialEq, Eq)]
pub struct ProcessOutput {
    /// It ended with success.
    pub success: bool,
    /// Its exit code, where it has one.
    pub code: Option<i32>,
    pub stdout: String,
    pub stderr: String,
}

/// The exit code for messages: `-1` where the process has none.
pub open spec fn reported_code(code: Option<i32>) -> i32 {
    match code {
        Some(c) => c,
        None => -1i32,
    }
}

/// The exit code for messages.
pub fn exit_code(code: Option<i32>) -> (r: i32)
    ensures
        r == reported_code(code),
{
    match code {
        Some(c) => c,
        None => -1,
    }
}

/// The result that the latest of `readings` announces.
pub open spec fn latest_result(readings: Seq<LineReadingView>) -> Option<Seq<char>>
    decreases readings.len(),
{
    if readings.len() == 0 {
        None
    } else {
        match reading_result(readings.last()) {
            Some(content) => Some(content),
            None => latest_result(readings.drop_last()),
        }
    }
}

/// The result among lines that were read: what the latest `final` line
/// announces, or, without such a line, `fallback`.
pub open spec fn chosen_content(readings: Seq<LineReadingView>, fallback: Seq<char>) -> Seq<char> {
    match latest_result(readings) {
        Some(content) => content,
        None => fallback,
    }
}

/// The views of a list of readings.
pub open spec fn reading_views(readings: Seq<LineReading>) -> Seq<LineReadingView> {
    readings.map_values(|r: LineReading| r@)
}

/// Chooses the result among lines that were read.
pub fn choose_content(readings: Vec<LineReading>, fallback: String) -> (content: String)
    ensures
        content@ == chosen_content(reading_views(readings@), fallback@),
{
    let ghost all = reading_views(readings@);
    let mut found: Option<String> = None;
    for reading in it: readings
        invariant
            it.seq() == readings@,
            all == reading_views(readings@),
            text_of(found) == latest_result(all.take(it.index() as int)),
    {
        proof {
            assert(all.take(it.index() + 1).drop_last() =~= all.take(it.index() as int));
            assert(all.take(it.index() + 1).last() == reading@);
        }
        match result_of(reading) {
            Some(content) => {
                found = Some(content);
            },
            None => {},
        }
    }
    proof {
        assert(all.take(readings@.len() as int) =~= all);
    }
    match found {
        Some(content) => content,
        None => fallback,
    }
}

/// What is read of `lines`, each taken without the whitespace around it;
/// blank lines are passed over.
pub open spec fn readings_of(lines: Seq<Seq<char>>) -> Seq<LineReadingView>
    decreases lines.len(),
{
    if lines.len() == 0 {
        Seq::empty()
    } else if trimmed(lines.last()).len() == 0 {
        readings_of(lines.drop_last())
    } else {
        readings_of(lines.drop_last()).push(line_reading(trimmed(lines.last())))
    }
}

/// The result in the buffered output of a worker: what its latest `final`
/// line announces, or, without such a line, the whole output without the
/// whitespace around it.
pub open spec fn buffered_content(stdout: Seq<char>) -> Seq<char> {
    chosen_content(readings_of(line_pieces(stdout)), trimmed(stdout))
}

/// Reads the result from the buffered output of a worker.
pub fn select_content(stdout: &str) -> (content: String)
    ensures
        content@ == buffered_content(stdout@),
{
    let lines = split_lines(stdout);
    let ghost pieces = line_pieces(stdout@);
    let mut readings: Vec<LineReading> = Vec::new();
    let mut i: usize = 0;
    proof {
        assert(reading_views(readings@) =~= readings_of(pieces.take(0)));
    }
    while i < lines.len()
        invariant
            i <= lines@.len(),
            views(lines@) == pieces,
            reading_views(readings@) == readings_of(pieces.take(i as int)),
        decreases lines@.len() - i,
    {
        proof {
            assert(pieces.take(i + 1).drop_last() =~= pieces.take(i as int));
            assert(pieces.take(i + 1).last() == lines@[i as int]@);
        }
        let line = trim(lines[i].as_str());
        if !line.as_str().is_empty() {
            let reading = read_line(line.as_str());
            proof {
                assert(reading_views(readings@.push(reading)) =~= reading_views(readings@).push(
                    reading@,
                ));
            }
            readings.push(reading);
        }
        i += 1;
    }
    proof {
        assert(pieces.take(i as int) =~= pieces);
    }
    choose_content(readings, trim(stdout))
}

/// What a worker that ran to its end returns to the caller. A worker that
/// ended without success is a failure that carries its whole output. A
/// summary is read from the `final` line; the other operations return the
/// output as it is, without the whitespace around it.
pub open spec fn buffered_outcome(
    operation: Operation,
    success: bool,
    code: Option<i32>,
    stdout: Seq<char>,
    stderr: Seq<char>,
) -> Result<Seq<char>, FailureView> {
    if !success {
        Err(FailureView::WorkerExit { code: reported_code(code), stdout, stderr })
    } else if operation == Operation::Summary {
        Ok(buffered_content(stdout))
    } else {
        Ok(trimmed(stdout))
    }
}

/// Turns the output of a worker that ran to its end into the result of the
/// call.
pub fn buffered_result(operation: Operation, output: ProcessOutput) -> (result: Result<
    String,
    Failure,
>)
    ensures
        text_result(result) == buffered_outcome(
            operation,
            output.success,
            output.code,
            output.stdout@,
            output.stderr@,
        ),
{
    if !output.success {
        return Err(
            Failure::WorkerExit {
                code: exit_code(output.code),
                stdout: output.stdout,
                stderr: output.stderr,
            },
        );
    }
    if operation == Operation::Summary {
        Ok(select_content(output.stdout.as_str()))
    } else {
        Ok(trim(output.stdout.as_str()))
    }
}

/// What the script that lists the models returns: its output without the
/// whitespace around it, for the caller to read as a JSON list.
pub open spec fn model_list_outcome(success: bool, stdout: Seq<char>, stderr: Seq<char>) -> Result<
    Seq<char>,
    FailureView,
> {
    if !success {
        Err(FailureView::ModelListExit { stdout, stderr })
    } else {
        Ok(trimmed(stdout))
    }
}

/// Turns the output of the script that lists the models into the text of the
/// list.
pub fn model_list_result(output: ProcessOutput) -> (result: Result<String, Failure>)
    ensures
        text_result(result) == model_list_outcome(output.success, output.stdout@, output.stderr@),
{
    if !output.success {
        return Err(Failure::ModelListExit { stdout: output.stdout, stderr: output.stderr });
    }
    Ok(trim(output.stdout.as_str()))
}

/// What subscribers are told when action items were asked for.
#[derive(Debug, PartialEq, Eq)]
pub enum ActionsEvent {
    /// The worker's answer, as the JSON text it wrote.
    Done { meeting_id: String, actions: String },
    /// Why there is no answer.
    Error { meeting_id: String, error: String },
}

/// The characters of an `ActionsEvent`.
pub enum ActionsEventView {
    Done { meeting_id: Seq<char>, actions: Seq<char> },
    Error { meeting_id: Seq<char>, error: Seq<char> },
}

impl View for ActionsEvent {
    type V = ActionsEventView;

    open spec fn view(&self) -> ActionsEventView {
        match self {
            ActionsEvent::Done { meeting_id, actions } => ActionsEventView::Done {
                meeting_id: meeting_id@,
                actions: actions@,
            },
            ActionsEvent::Error { meeting_id, error } => ActionsEventView::Error {
                meeting_id: meeting_id@,
                error: error@,
            },
        }
    }
}

impl ActionsEvent {
    /// The name under which subscribers receive the event.
    pub fn event_name(&self) -> (r: &'static str)
        ensures
            r@ == match self@ {
                ActionsEventView::Done { .. } => "actions-done"@,
                ActionsEventView::Error { .. } => "actions-error"@,
            },
    {
        match self {
            ActionsEvent::Done { .. } => "actions-done",
            ActionsEvent::Error { .. } => "actions-error",
        }
    }
}

/// The event for a worker that could not be started.
pub fn actions_not_started(meeting_id: String, detail: &str) -> (event: ActionsEvent)
    ensures
        event@ == (ActionsEventView::Error {
            meeting_id: meeting_id@,
            error: Program::ActionsScript.prefix() + detail@,
        }),
{
    let mut error = Program::ActionsScript.prefix_text().to_owned();
    error.append(detail);
    ActionsEvent::Error { meeting_id, error }
}

/// The event for a worker that ran to its end, given whether its output,
/// without the whitespace around it, parsed as JSON. Output that is JSON is
/// the answer; a worker that ended without success, or wrote something else,
/// gives an `Error`.
pub open spec fn actions_outcome(
    meeting_id: Seq<char>,
    success: bool,
    stderr: Seq<char>,
    text: Seq<char>,
    parse_failure: Option<Seq<char>>,
) -> ActionsEventView {
    if !success {
        ActionsEventView::Error { meeting_id, error: "Actions extraction failed: "@ + stderr }
    } else {
        match parse_failure {
            None => ActionsEventView::Done { meeting_id, actions: text },
            Some(detail) => ActionsEventView::Error {
                meeting_id,
                error: Document::Actions.prefix() + detail,
            },
        }
    }
}

/// The event for a worker that ran to its end and whose output was read:
/// `text` is the output without the whitespace around it, `parse_failure`
/// says why it is no JSON, if it is none.
pub fn actions_event(
    meeting_id: String,
    success: bool,
    stderr: &str,
    text: String,
    parse_failure: Option<String>,
) -> (event: ActionsEvent)
    ensures
        event@ == actions_outcome(meeting_id@, success, stderr@, text@, text_of(parse_failure)),
{
    if !success {
        let mut error = "Actions extraction failed: ".to_owned();
        error.append(stderr);
        return ActionsEvent::Error { meeting_id, error };
    }
    match parse_failure {
        None => ActionsEvent::Done { meeting_id, actions: text },
        Some(detail) => {
            let mut error = Document::Actions.prefix_text().to_owned();
            error.append(detail.as_str());
            ActionsEvent::Error { meeting_id, error }
        },
    }
}

/// The event for a worker that ran to its end: its output is read as JSON
/// and the event follows `actions_outcome`.
pub fn actions_finished(meeting_id: String, output: &ProcessOutput) -> (event: ActionsEvent)
    ensures
        exists|parse_failure: Option<Seq<char>>|
            parse_failure is None == json_parses(trimmed(output.stdout@)) && event@
                == actions_outcome(
                meeting_id@,
                output.success,
                output.stderr@,
                trimmed(output.stdout@),
                parse_failure,
            ),
{
    let text = trim(output.stdout.as_str());
    let parse_failure = match parse_member(text.as_str(), "type") {
        Ok(_) => None,
        Err(failure) => Some(failure.detail),
    };
    let ghost witness = text_of(parse_failure);
    let event = actions_event(
        meeting_id,
        output.success,
        output.stderr.as_str(),
        text,
        parse_failure,
    );
    proof {
        assert(witness is None == json_parses(trimmed(output.stdout@)));
        assert(event@ == actions_outcome(
            meeting_id@,
            output.success,
            output.stderr@,
            trimmed(output.stdout@),
            witness,
        ));
    }
    event
}

/// The report of a diagnostic run of the speech-recognition binary.
pub open spec fn diagnostic_report_spec(
    resolved: Seq<char>,
    code: Option<i32>,
    stdout: Seq<char>,
    stderr: Seq<char>,
) -> Seq<char> {
    "Resolved binary: "@ + resolved + "\nExit code: "@ + crate::text::signed_decimal(
        reported_code(code) as int,
    ) + "\nstdout:\n"@ + stdout + "\nstderr:\n"@ + stderr
}

/// The report of a diagnostic run of the speech-recognition binary: the
/// binary that was taken, how it ended and what it wrote.
pub fn diagnostic_report(resolved: &str, output: &ProcessOutput) -> (report: String)
    ensures
        report@ == diagnostic_report_spec(resolved@, output.code, output.stdout@, output.stderr@),
{
    let mut report = "Resolved binary: ".to_owned();
    report.append(resolved);
    report.append("\nExit code: ");
    crate::text::push_signed_decimal(&mut report, exit_code(output.code));
    report.append("\nstdout:\n");
    report.append(output.stdout.as_str());
    report.append("\nstderr:\n");
    report.append(output.stderr.as_str());
    report
}

} // verus!
