//! What can go wrong outside path resolution and sessions, and the exact
//! message that the user reads for each failure.

use vstd::prelude::*;
use vstd::string::StringExecFns;
use crate::resolve::{ResolveError, ResolveErrorView};
use crate::session::SessionError;
use crate::text::{push_signed_decimal, signed_decimal};

verus! {

/// The kinds of failure that a caller may want to tell apart.
#[derive(Clone, Copy, Debug, PartialEq, Eq, Structural)]
pub enum ErrorKind {
    /// A binary, a model, a script or a session is not there.
    NotFound,
    /// A setting that the call needs is missing.
    ConfigurationError,
    /// Base64 or JSON that does not parse.
    DecodeError,
    /// A process could not be started.
    ProcessSpawnError,
    /// A process ended without success.
    ProcessExitError,
    /// Files or the network.
    IOError,
    /// The remote endpoint answered with a failure.
    RemoteAPIError,
}

/// The work of a worker script.
#[derive(Clone, Copy, Debug, PartialEq, Eq, Structural)]
pub enum Operation {
    Summary,
    Enhance,
    CleanTranscript,
    Actions,
    Models,
}

/// A step that reads or writes outside the process.
#[derive(Clone, Copy, Debug, PartialEq, Eq, Structural)]
pub enum IoStep {
    CreateTempDir,
    WriteAudio,
    ReadTranscript,
    WritePayload(Operation),
    BuildMultipart,
    CallApi,
}

/// A process that the application starts.
#[derive(Clone, Copy, Debug, PartialEq, Eq, Structural)]
pub enum Program {
    Whisper,
    WhisperDiagnostics,
    Worker,
    ActionsScript,
    ModelsScript,
}

/// A text that is expected to be JSON.
#[derive(Clone, Copy, Debug, PartialEq, Eq, Structural)]
pub enum Document {
    ApiResponse,
    Actions,
    ModelList,
}

/// A failure, with what the message needs.
#[derive(Debug, PartialEq, Eq)]
pub enum Failure {
    /// A path could not be resolved.
    Resolve(ResolveError),
    /// A session operation failed.
    Session(SessionError),
    /// A provider was asked for by a name that is none.
    UnknownProvider { name: String },
    /// The remote backend has no API key.
    ApiKeyNotConfigured,
    /// The remote backend has no endpoint.
    EndpointNotConfigured,
    /// The audio is no base64.
    Decode { detail: String },
    /// A text is no JSON, or not the JSON expected.
    Parse { document: Document, detail: String },
    /// Reading or writing failed.
    Io { step: IoStep, detail: String },
    /// A process could not be started.
    Spawn { program: Program, detail: String },
    /// The speech-recognition binary ended without success.
    WhisperExit { code: i32, command: String, stdout: String, stderr: String },
    /// A worker ended without success.
    WorkerExit { code: i32, stdout: String, stderr: String },
    /// The script that lists the models ended without success.
    ModelListExit { stdout: String, stderr: String },
    /// The remote endpoint answered outside the 2xx range.
    RemoteApi { status: String, body: String },
    /// The script of an operation is not where it is expected.
    ScriptMissing { operation: Operation, path: String },
    /// The background task of a transcription did not come back.
    Task { detail: String },
}

/// The characters of a `Failure`.
pub enum FailureView {
    Resolve(ResolveErrorView),
    Session(SessionError),
    UnknownProvider { name: Seq<char> },
    ApiKeyNotConfigured,
    EndpointNotConfigured,
    Decode { detail: Seq<char> },
    Parse { document: Document, detail: Seq<char> },
    Io { step: IoStep, detail: Seq<char> },
    Spawn { program: Program, detail: Seq<char> },
    WhisperExit { code: i32, command: Seq<char>, stdout: Seq<char>, stderr: Seq<char> },
    WorkerExit { code: i32, stdout: Seq<char>, stderr: Seq<char> },
    ModelListExit { stdout: Seq<char>, stderr: Seq<char> },
    RemoteApi { status: Seq<char>, body: Seq<char> },
    ScriptMissing { operation: Operation, path: Seq<char> },
    Task { detail: Seq<char> },
}

impl View for Failure {
    type V = FailureView;

    open spec fn view(&self) -> FailureView {
        match self {
            Failure::Resolve(inner) => FailureView::Resolve(inner@),
            Failure::Session(inner) => FailureView::Session(*inner),
            Failure::UnknownProvider { name } => FailureView::UnknownProvider { name: name@ },
            Failure::ApiKeyNotConfigured => FailureView::ApiKeyNotConfigured,
            Failure::EndpointNotConfigured => FailureView::EndpointNotConfigured,
            Failure::Decode { detail } => FailureView::Decode { detail: detail@ },
            Failure::Parse { document, detail } => FailureView::Parse {
                document: *document,
                detail: detail@,
            },
            Failure::Io { step, detail } => FailureView::Io { step: *step, detail: detail@ },
            Failure::Spawn { program, detail } => FailureView::Spawn {
                program: *program,
                detail: detail@,
            },
            Failure::WhisperExit { code, command, stdout, stderr } => FailureView::WhisperExit {
                code: *code,
                command: command@,
                stdout: stdout@,
                stderr: stderr@,
            },
            Failure::WorkerExit { code, stdout, stderr } => FailureView::WorkerExit {
                code: *code,
                stdout: stdout@,
                stderr: stderr@,
            },
            Failure::ModelListExit { stdout, stderr } => FailureView::ModelListExit {
                stdout: stdout@,
                stderr: stderr@,
            },
            Failure::RemoteApi { status, body } => FailureView::RemoteApi {
                status: status@,
                body: body@,
            },
            Failure::ScriptMissing { operation, path } => FailureView::ScriptMissing {
                operation: *operation,
                path: path@,
            },
            Failure::Task { detail } => FailureView::Task { detail: detail@ },
        }
    }
}

impl Operation {
    /// The word for the operation in the message of a payload that could not
    /// be written.
    pub open spec fn payload_word(self) -> Seq<char> {
        match self {
            Operation::Summary => "summary"@,
            Operation::Enhance => "enhance"@,
            Operation::CleanTranscript => "transcript"@,
            Operation::Actions => "actions"@,
            Operation::Models => "models"@,
        }
    }

    /// The word for the operation in the message of a payload that could not
    /// be written.
    pub fn payload_word_text(self) -> (r: &'static str)
        ensures
            r@ == self.payload_word(),
    {
        match self {
            Operation::Summary => "summary",
            Operation::Enhance => "enhance",
            Operation::CleanTranscript => "transcript",
            Operation::Actions => "actions",
            Operation::Models => "models",
        }
    }

    /// How the message of a missing script begins.
    pub open spec fn missing_script_prefix(self) -> Seq<char> {
        match self {
            Operation::Summary => "Copilot summary script not found: "@,
            Operation::Enhance => "Enhance script not found: "@,
            Operation::CleanTranscript => "Clean transcript script not found: "@,
            Operation::Actions => "Actions script not found: "@,
            Operation::Models => "Models script not found: "@,
        }
    }

    /// How the message of a missing script begins.
    pub fn missing_script_prefix_text(self) -> (r: &'static str)
        ensures
            r@ == self.missing_script_prefix(),
    {
        match self {
            Operation::Summary => "Copilot summary script not found: ",
            Operation::Enhance => "Enhance script not found: ",
            Operation::CleanTranscript => "Clean transcript script not found: ",
            Operation::Actions => "Actions script not found: ",
            Operation::Models => "Models script not found: ",
        }
    }
}

impl IoStep {
    /// How the message of a failed step begins.
    pub open spec fn prefix(self) -> Seq<char> {
        match self {
            IoStep::CreateTempDir => "Failed to create temp dir: "@,
            IoStep::WriteAudio => "Failed to write audio file: "@,
            IoStep::ReadTranscript => "Failed to read transcript: "@,
            IoStep::WritePayload(operation) => "Failed to write "@ + operation.payload_word()
                + " payload: "@,
            IoStep::BuildMultipart => "Failed to create multipart: "@,
            IoStep::CallApi => "Failed to call transcription API: "@,
        }
    }

    /// How the message of a failed step begins.
    pub fn prefix_text(self) -> (r: String)
        ensures
            r@ == self.prefix(),
    {
        match self {
            IoStep::CreateTempDir => "Failed to create temp dir: ".to_owned(),
            IoStep::WriteAudio => "Failed to write audio file: ".to_owned(),
            IoStep::ReadTranscript => "Failed to read transcript: ".to_owned(),
            IoStep::WritePayload(operation) => {
                let mut text = "Failed to write ".to_owned();
                text.append(operation.payload_word_text());
                text.append(" payload: ");
                text
            },
            IoStep::BuildMultipart => "Failed to create multipart: ".to_owned(),
            IoStep::CallApi => "Failed to call transcription API: ".to_owned(),
        }
    }
}

impl Program {
    /// How the message of a process that did not start begins.
    pub open spec fn prefix(self) -> Seq<char> {
        match self {
            Program::Whisper => "Failed to run whisper: "@,
            Program::WhisperDiagnostics => "Failed to run whisper diagnostics: "@,
            Program::Worker => "Failed to run Copilot SDK: "@,
            Program::ActionsScript => "Failed to run actions script: "@,
            Program::ModelsScript => "Failed to run models script: "@,
        }
    }

    /// How the message of a process that did not start begins.
    pub fn prefix_text(self) -> (r: &'static str)
        ensures
            r@ == self.prefix(),
    {
        match self {
            Program::Whisper => "Failed to run whisper: ",
            Program::WhisperDiagnostics => "Failed to run whisper diagnostics: ",
            Program::Worker => "Failed to run Copilot SDK: ",
            Program::ActionsScript => "Failed to run actions script: ",
            Program::ModelsScript => "Failed to run models script: ",
        }
    }
}

impl Document {
    /// How the message of a text that did not parse begins.
    pub open spec fn prefix(self) -> Seq<char> {
        match self {
            Document::ApiResponse => "Failed to parse API response: "@,
            Document::Actions => "Failed to parse actions: "@,
            Document::ModelList => "Failed to parse models list: "@,
        }
    }

    /// How the message of a text that did not parse begins.
    pub fn prefix_text(self) -> (r: &'static str)
        ensures
            r@ == self.prefix(),
    {
        match self {
            Document::ApiResponse => "Failed to parse API response: ",
            Document::Actions => "Failed to parse actions: ",
            Document::ModelList => "Failed to parse models list: ",
        }
    }
}

impl FailureView {
    /// The kind of the failure.
    pub open spec fn kind(self) -> ErrorKind {
        match self {
            FailureView::Resolve(_) => ErrorKind::NotFound,
            FailureView::Session(_) => ErrorKind::NotFound,
            FailureView::UnknownProvider { .. } => ErrorKind::ConfigurationError,
            FailureView::ApiKeyNotConfigured => ErrorKind::ConfigurationError,
            FailureView::EndpointNotConfigured => ErrorKind::ConfigurationError,
            FailureView::Decode { .. } => ErrorKind::DecodeError,
            FailureView::Parse { .. } => ErrorKind::DecodeError,
            FailureView::Io { .. } => ErrorKind::IOError,
            FailureView::Spawn { .. } => ErrorKind::ProcessSpawnError,
            FailureView::WhisperExit { .. } => ErrorKind::ProcessExitError,
            FailureView::WorkerExit { .. } => ErrorKind::ProcessExitError,
            FailureView::ModelListExit { .. } => ErrorKind::ProcessExitError,
            FailureView::RemoteApi { .. } => ErrorKind::RemoteAPIError,
            FailureView::ScriptMissing { .. } => ErrorKind::NotFound,
            FailureView::Task { .. } => ErrorKind::ProcessSpawnError,
        }
    }

    /// The message for the user. A failed process is reported with its whole
    /// output, a failed call with what the other side answered.
    pub open spec fn message(self) -> Seq<char> {
        match self {
            FailureView::Resolve(inner) => inner.message(),
            FailureView::Session(_) => "Session not found"@,
            FailureView::UnknownProvider { name } => "Unknown provider: "@ + name,
            FailureView::ApiKeyNotConfigured => "OpenAI-compatible API key not configured"@,
            FailureView::EndpointNotConfigured => "OpenAI-compatible endpoint not configured"@,
            FailureView::Decode { detail } => "Failed to decode audio: "@ + detail,
            FailureView::Parse { document, detail } => document.prefix() + detail,
            FailureView::Io { step, detail } => step.prefix() + detail,
            FailureView::Spawn { program, detail } => program.prefix() + detail,
            FailureView::WhisperExit { code, command, stdout, stderr } => "Whisper failed (code "@
                + signed_decimal(code as int) + ").\nCommand: "@ + command + "\nstdout: "@ + stdout
                + "\nstderr: "@ + stderr,
            FailureView::WorkerExit { code, stdout, stderr } => "Copilot SDK failed (code "@
                + signed_decimal(code as int) + ").\nstdout: "@ + stdout + "\nstderr: "@ + stderr,
            FailureView::ModelListExit { stdout, stderr } => "Model list failed: "@ + stderr + "\n"@
                + stdout,
            FailureView::RemoteApi { status, body } => "Transcription API failed ("@ + status
                + "): "@ + body,
            FailureView::ScriptMissing { operation, path } => operation.missing_script_prefix()
                + path,
            FailureView::Task { detail } => "Failed to run transcription task: "@ + detail,
        }
    }
}

impl Failure {
    /// The kind of the failure.
    pub fn kind(&self) -> (r: ErrorKind)
        ensures
            r == self@.kind(),
    {
        match self {
            Failure::Resolve(_) => ErrorKind::NotFound,
            Failure::Session(_) => ErrorKind::NotFound,
            Failure::UnknownProvider { .. } => ErrorKind::ConfigurationError,
            Failure::ApiKeyNotConfigured => ErrorKind::ConfigurationError,
            Failure::EndpointNotConfigured => ErrorKind::ConfigurationError,
            Failure::Decode { .. } => ErrorKind::DecodeError,
            Failure::Parse { .. } => ErrorKind::DecodeError,
            Failure::Io { .. } => ErrorKind::IOError,
            Failure::Spawn { .. } => ErrorKind::ProcessSpawnError,
            Failure::WhisperExit { .. } => ErrorKind::ProcessExitError,
            Failure::WorkerExit { .. } => ErrorKind::ProcessExitError,
            Failure::ModelListExit { .. } => ErrorKind::ProcessExitError,
            Failure::RemoteApi { .. } => ErrorKind::RemoteAPIError,
            Failure::ScriptMissing { .. } => ErrorKind::NotFound,
            Failure::Task { .. } => ErrorKind::ProcessSpawnError,
        }
    }

    /// The message for the user.
    pub fn message(&self) -> (r: String)
        ensures
            r@ == self@.message(),
    {
        match self {
            Failure::Resolve(inner) => inner.message(),
            Failure::Session(_) => "Session not found".to_owned(),
            Failure::UnknownProvider { name } => {
                let mut text = "Unknown provider: ".to_owned();
                text.append(name.as_str());
                text
            },
            Failure::ApiKeyNotConfigured => "OpenAI-compatible API key not configured".to_owned(),
            Failure::EndpointNotConfigured => "OpenAI-compatible endpoint not configured".to_owned(),
            Failure::Decode { detail } => {
                let mut text = "Failed to decode audio: ".to_owned();
                text.append(detail.as_str());
                text
            },
            Failure::Parse { document, detail } => {
                let mut text = document.prefix_text().to_owned();
                text.append(detail.as_str());
                text
            },
            Failure::Io { step, detail } => {
                let mut text = step.prefix_text();
                text.append(detail.as_str());
                text
            },
            Failure::Spawn { program, detail } => {
                let mut text = program.prefix_text().to_owned();
                text.append(detail.as_str());
                text
            },
            Failure::WhisperExit { code, command, stdout, stderr } => {
                let mut text = "Whisper failed (code ".to_owned();
                push_signed_decimal(&mut text, *code);
                text.append(").\nCommand: ");
                text.append(command.as_str());
                text.append("\nstdout: ");
                text.append(stdout.as_str());
                text.append("\nstderr: ");
                text.append(stderr.as_str());
                text
            },
            Failure::WorkerExit { code, stdout, stderr } => {
                let mut text = "Copilot SDK failed (code ".to_owned();
                push_signed_decimal(&mut text, *code);
                text.append(").\nstdout: ");
                text.append(stdout.as_str());
                text.append("\nstderr: ");
                text.append(stderr.as_str());
                text
            },
            Failure::ModelListExit { stdout, stderr } => {
                let mut text = "Model list failed: ".to_owned();
                text.append(stderr.as_str());
                text.append("\n");
                text.append(stdout.as_str());
                text
            },
            Failure::RemoteApi { status, body } => {
                let mut text = "Transcription API failed (".to_owned();
                text.append(status.as_str());
                text.append("): ");
                text.append(body.as_str());
                text
            },
            Failure::ScriptMissing { operation, path } => {
                let mut text = operation.missing_script_prefix_text().to_owned();
                text.append(path.as_str());
                text
            },
            Failure::Task { detail } => {
                let mut text = "Failed to run transcription task: ".to_owned();
                text.append(detail.as_str());
                text
            },
        }
    }
}

/// The view of a result whose value is a text.
pub open spec fn text_result(result: Result<String, Failure>) -> Result<Seq<char>, FailureView> {
    match result {
        Ok(text) => Ok(text@),
        Err(error) => Err(error@),
    }
}

} // verus!
