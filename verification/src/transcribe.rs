//! Transcription through one of two backends: the speech-recognition binary
//! on this machine, or a remote endpoint. What is decided here: which backend
//! serves a call, what the binary or the endpoint is handed, and what their
//! answers mean. Running the binary and calling the endpoint is the caller's
//! part.

use base64::Engine;
use vstd::prelude::*;
use vstd::string::StringExecFns;
use crate::config::{AppConfig, TranscriptionProvider};
use crate::error::{Document, Failure, FailureView};
use crate::json::{json_member_text, json_parses, parse_member, JsonFacts, JsonFailure};
use crate::merge::ChunkView;
use crate::session::{append_effect, SessionError, SessionRegistry, SessionView};
use crate::text::{
    decimal, decimal_string, same_text, text_of, text_of_slice, trim, trimmed, views,
};
use crate::worker::{exit_code, reported_code, ProcessOutput};

verus! {

/// `base64::DecodeError`, carried from the decoder to where its message is
/// read.
#[verifier::external_type_specification]
#[verifier::external_body]
pub struct ExDecodeError(base64::DecodeError);

/// The bytes that the standard base64 alphabet with padding encodes as
/// `text`, as `base64`'s `STANDARD` engine decodes them; `None` where that
/// engine rejects `text`.
pub uninterp spec fn base64_decoded(text: Seq<char>) -> Option<Seq<u8>>;

/// `base64::engine::general_purpose::STANDARD.decode`: decoding depends on
/// the text alone, and either gives the bytes or an error.
#[verifier::external_body]
fn decode_standard(text: &str) -> (r: Result<Vec<u8>, base64::DecodeError>)
    ensures
        match r {
            Ok(bytes) => base64_decoded(text@) == Some(bytes@),
            Err(_) => base64_decoded(text@) is None,
        },
{
    base64::engine::general_purpose::STANDARD.decode(text)
}

/// The message of a `base64::DecodeError`, as its `Display` writes it.
#[verifier::external_body]
fn decode_error_message(error: &base64::DecodeError) -> (r: String) {
    error.to_string()
}

/// Decodes audio that arrives as base64. Succeeds exactly on the texts that
/// are base64.
pub fn decode_audio(text: &str) -> (result: Result<Vec<u8>, Failure>)
    ensures
        match result {
            Ok(bytes) => base64_decoded(text@) == Some(bytes@),
            Err(failure) => base64_decoded(text@) is None && failure@ is Decode,
        },
{
    match decode_standard(text) {
        Ok(bytes) => Ok(bytes),
        Err(error) => Err(Failure::Decode { detail: decode_error_message(&error) }),
    }
}

/// The provider of a call: the one asked for by name, else the configured
/// one. `auto` asks for the configured one too.
pub open spec fn selected_provider(
    requested: Option<Seq<char>>,
    configured: TranscriptionProvider,
) -> Result<TranscriptionProvider, FailureView> {
    match requested {
        None => Ok(configured),
        Some(name) => if name == "local"@ {
            Ok(TranscriptionProvider::Local)
        } else if name == "openai-compatible"@ {
            Ok(TranscriptionProvider::OpenAICompatible)
        } else if name == "auto"@ {
            Ok(configured)
        } else {
            Err(FailureView::UnknownProvider { name })
        },
    }
}

/// The view of a provider or of the reason why there is none.
pub open spec fn provider_result(result: Result<TranscriptionProvider, Failure>) -> Result<
    TranscriptionProvider,
    FailureView,
> {
    match result {
        Ok(provider) => Ok(provider),
        Err(failure) => Err(failure@),
    }
}

/// Chooses the provider of one call.
pub fn select_provider(requested: Option<&str>, configured: TranscriptionProvider) -> (result:
    Result<TranscriptionProvider, Failure>)
    ensures
        provider_result(result) == selected_provider(text_of_slice(requested), configured),
{
    match requested {
        None => Ok(configured),
        Some(name) => {
            if same_text(name, "local") {
                Ok(TranscriptionProvider::Local)
            } else if same_text(name, "openai-compatible") {
                Ok(TranscriptionProvider::OpenAICompatible)
            } else if same_text(name, "auto") {
                Ok(configured)
            } else {
                Err(Failure::UnknownProvider { name: name.to_owned() })
            }
        },
    }
}

/// The provider that a streaming session is pinned to: the remote one where
/// it is asked for by name, else the local one.
pub open spec fn session_provider(requested: Option<Seq<char>>) -> TranscriptionProvider {
    if requested == Some("openai-compatible"@) {
        TranscriptionProvider::OpenAICompatible
    } else {
        TranscriptionProvider::Local
    }
}

/// Chooses the provider of a streaming session.
pub fn streaming_provider(requested: Option<&str>) -> (provider: TranscriptionProvider)
    ensures
        provider == session_provider(text_of_slice(requested)),
{
    match requested {
        Some(name) => {
            if same_text(name, "openai-compatible") {
                TranscriptionProvider::OpenAICompatible
            } else {
                TranscriptionProvider::Local
            }
        },
        None => TranscriptionProvider::Local,
    }
}

/// Opens a streaming session for the provider asked for and returns its
/// identifier.
pub fn start_streaming_session(registry: &mut SessionRegistry, requested: Option<&str>) -> (id:
    String)
    ensures
        !old(registry)@.dom().contains(id@),
        final(registry)@ == crate::session::create_effect(
            old(registry)@,
            id@,
            session_provider(text_of_slice(requested)),
        ),
{
    registry.create(streaming_provider(requested))
}

/// The two ways to transcribe.
#[derive(Clone, Copy, Debug, PartialEq, Eq, Structural)]
pub enum Backend {
    Local,
    Remote,
}

/// The backend that serves a provider.
pub open spec fn backend_of(provider: TranscriptionProvider) -> Backend {
    match provider {
        TranscriptionProvider::OpenAICompatible => Backend::Remote,
        _ => Backend::Local,
    }
}

/// The backend that serves a provider.
pub fn backend(provider: TranscriptionProvider) -> (r: Backend)
    ensures
        r == backend_of(provider),
{
    match provider {
        TranscriptionProvider::OpenAICompatible => Backend::Remote,
        _ => Backend::Local,
    }
}

/// What both backends answer.
#[derive(Debug, PartialEq, Eq)]
pub struct TranscribeResponse {
    pub transcript: String,
    pub stdout: String,
    pub stderr: String,
    /// What was run or called, for diagnosis.
    pub command: String,
    /// The name of the provider that answered.
    pub provider: String,
}

/// The characters of a `TranscribeResponse`.
pub struct ResponseView {
    pub transcript: Seq<char>,
    pub stdout: Seq<char>,
    pub stderr: Seq<char>,
    pub command: Seq<char>,
    pub provider: Seq<char>,
}

impl View for TranscribeResponse {
    type V = ResponseView;

    open spec fn view(&self) -> ResponseView {
        ResponseView {
            transcript: self.transcript@,
            stdout: self.stdout@,
            stderr: self.stderr@,
            command: self.command@,
            provider: self.provider@,
        }
    }
}

/// The view of a response or of the reason why there is none.
pub open spec fn response_result(result: Result<TranscribeResponse, Failure>) -> Result<
    ResponseView,
    FailureView,
> {
    match result {
        Ok(response) => Ok(response@),
        Err(failure) => Err(failure@),
    }
}

/// The names of the files of the local call with identifier `id`, inside
/// the directory for temporary files.
#[derive(Debug, PartialEq, Eq)]
pub struct CallFiles {
    /// The audio that the binary reads.
    pub audio: String,
    /// What the binary is told to name its output.
    pub output_base: String,
    /// The text file that the binary writes.
    pub transcript: String,
}

/// Names the files of one local call.
pub fn call_files(id: &str) -> (files: CallFiles)
    ensures
        files.audio@ == id@ + ".wav"@,
        files.output_base@ == id@ + "_out"@,
        files.transcript@ == id@ + "_out.txt"@,
{
    let mut audio = id.to_owned();
    audio.append(".wav");
    let mut output_base = id.to_owned();
    output_base.append("_out");
    let mut transcript = id.to_owned();
    transcript.append("_out.txt");
    CallFiles { audio, output_base, transcript }
}

/// The language of a call: the one given with the call, else the configured
/// one.
pub open spec fn call_language(language: Option<Seq<char>>, config: AppConfig) -> Seq<char> {
    match language {
        Some(given) => given,
        None => config.effective_language_spec(),
    }
}

/// The arguments of the speech-recognition binary: model, audio, text
/// output under the given base name, the two search widths, and the language
/// where one is set.
pub open spec fn whisper_arguments(
    model: Seq<char>,
    audio: Seq<char>,
    output_base: Seq<char>,
    best_of: u32,
    beam_size: u32,
    language: Seq<char>,
) -> Seq<Seq<char>> {
    let fixed = seq![
        "-m"@,
        model,
        "-f"@,
        audio,
        "-otxt"@,
        "-of"@,
        output_base,
        "--best-of"@,
        decimal(best_of as nat),
        "--beam-size"@,
        decimal(beam_size as nat),
    ];
    if trimmed(language).len() > 0 {
        fixed + seq!["-l"@, trimmed(language)]
    } else {
        fixed
    }
}

/// `text` between double quotes.
pub open spec fn quoted(text: Seq<char>) -> Seq<char> {
    "\""@ + text + "\""@
}

/// Whether the argument at position `i` is a path: in `whisper_arguments`
/// the model, the audio and the base name of the output.
pub open spec fn is_path_position(i: int) -> bool {
    i == 1 || i == 3 || i == 6
}

/// The argument at position `i` as a command line shows it: a path between
/// double quotes, everything else as it is.
pub open spec fn shown_argument(arguments: Seq<Seq<char>>, i: int) -> Seq<char> {
    if is_path_position(i) {
        quoted(arguments[i])
    } else {
        arguments[i]
    }
}

/// The first `n` arguments as a command line shows them, each behind a
/// space.
pub open spec fn shown_arguments(arguments: Seq<Seq<char>>, n: nat) -> Seq<char>
    decreases n,
{
    if n == 0 {
        Seq::empty()
    } else {
        shown_arguments(arguments, (n - 1) as nat) + " "@ + shown_argument(arguments, n - 1)
    }
}

/// A call as one line: the program between double quotes, followed by every
/// argument.
pub open spec fn command_line(program: Seq<char>, arguments: Seq<Seq<char>>) -> Seq<char> {
    quoted(program) + shown_arguments(arguments, arguments.len())
}

/// The call of the binary as one line, for diagnosis: the program followed
/// by all of `whisper_arguments`.
pub open spec fn whisper_command(
    program: Seq<char>,
    model: Seq<char>,
    audio: Seq<char>,
    output_base: Seq<char>,
    best_of: u32,
    beam_size: u32,
    language: Seq<char>,
) -> Seq<char> {
    command_line(
        program,
        whisper_arguments(model, audio, output_base, best_of, beam_size, language),
    )
}

/// The flags that every run of the binary has, as a command line shows
/// them.
pub open spec fn shown_fixed_flags(
    model: Seq<char>,
    audio: Seq<char>,
    output_base: Seq<char>,
    best_of: u32,
    beam_size: u32,
) -> Seq<char> {
    " "@ + "-m"@ + " "@ + quoted(model) + " "@ + "-f"@ + " "@ + quoted(audio) + " "@ + "-otxt"@
        + " "@ + "-of"@ + " "@ + quoted(output_base) + " "@ + "--best-of"@ + " "@ + decimal(
        best_of as nat,
    ) + " "@ + "--beam-size"@ + " "@ + decimal(beam_size as nat)
}

/// The first eleven arguments are shown as the fixed flags.
proof fn lemma_shown_fixed_flags(
    arguments: Seq<Seq<char>>,
    model: Seq<char>,
    audio: Seq<char>,
    output_base: Seq<char>,
    best_of: u32,
    beam_size: u32,
)
    requires
        arguments.len() >= 11,
        arguments[0] == "-m"@,
        arguments[1] == model,
        arguments[2] == "-f"@,
        arguments[3] == audio,
        arguments[4] == "-otxt"@,
        arguments[5] == "-of"@,
        arguments[6] == output_base,
        arguments[7] == "--best-of"@,
        arguments[8] == decimal(best_of as nat),
        arguments[9] == "--beam-size"@,
        arguments[10] == decimal(beam_size as nat),
    ensures
        shown_arguments(arguments, 11) == shown_fixed_flags(
            model,
            audio,
            output_base,
            best_of,
            beam_size,
        ),
{
    let space = " "@;
    assert(shown_arguments(arguments, 0) + space =~= space);
    assert(shown_arguments(arguments, 1) == space + "-m"@);
    assert(shown_arguments(arguments, 2) == shown_arguments(arguments, 1) + space + quoted(model));
    assert(shown_arguments(arguments, 3) == shown_arguments(arguments, 2) + space + "-f"@);
    assert(shown_arguments(arguments, 4) == shown_arguments(arguments, 3) + space + quoted(audio));
    assert(shown_arguments(arguments, 5) == shown_arguments(arguments, 4) + space + "-otxt"@);
    assert(shown_arguments(arguments, 6) == shown_arguments(arguments, 5) + space + "-of"@);
    assert(shown_arguments(arguments, 7) == shown_arguments(arguments, 6) + space + quoted(
        output_base,
    ));
    assert(shown_arguments(arguments, 8) == shown_arguments(arguments, 7) + space + "--best-of"@);
    assert(shown_arguments(arguments, 9) == shown_arguments(arguments, 8) + space + decimal(
        best_of as nat,
    ));
    assert(shown_arguments(arguments, 10) == shown_arguments(arguments, 9) + space
        + "--beam-size"@);
    assert(shown_arguments(arguments, 11) == shown_arguments(arguments, 10) + space + decimal(
        beam_size as nat,
    ));
}

/// The command line of the binary holds every flag that the binary is run
/// with: model, audio, text output, the two search widths, and the language
/// where one is set.
pub proof fn whisper_command_is_complete(
    program: Seq<char>,
    model: Seq<char>,
    audio: Seq<char>,
    output_base: Seq<char>,
    best_of: u32,
    beam_size: u32,
    language: Seq<char>,
)
    ensures
        whisper_command(program, model, audio, output_base, best_of, beam_size, language)
            == quoted(program) + if trimmed(language).len() > 0 {
            shown_fixed_flags(model, audio, output_base, best_of, beam_size) + " "@ + "-l"@
                + " "@ + trimmed(language)
        } else {
            shown_fixed_flags(model, audio, output_base, best_of, beam_size)
        },
{
    let arguments = whisper_arguments(model, audio, output_base, best_of, beam_size, language);
    lemma_shown_fixed_flags(arguments, model, audio, output_base, best_of, beam_size);
    if trimmed(language).len() > 0 {
        assert(arguments.len() == 13);
        assert(arguments[11] == "-l"@);
        assert(arguments[12] == trimmed(language));
        assert(shown_arguments(arguments, 12) == shown_arguments(arguments, 11) + " "@ + "-l"@);
        assert(shown_arguments(arguments, 13) == shown_arguments(arguments, 12) + " "@ + trimmed(
            language,
        ));
    } else {
        assert(arguments.len() == 11);
    }
}

/// Writes a call as one line.
pub fn command_line_text(program: &str, arguments: &Vec<String>) -> (line: String)
    ensures
        line@ == command_line(program@, views(arguments@)),
{
    let ghost shown = views(arguments@);
    let mut line = "\"".to_owned();
    line.append(program);
    line.append("\"");
    let mut i: usize = 0;
    proof {
        assert(line@ =~= quoted(program@) + shown_arguments(shown, 0));
    }
    while i < arguments.len()
        invariant
            i <= arguments@.len(),
            shown == views(arguments@),
            line@ == quoted(program@) + shown_arguments(shown, i as nat),
        decreases arguments@.len() - i,
    {
        let ghost before = line@;
        line.append(" ");
        if i == 1 || i == 3 || i == 6 {
            line.append("\"");
            line.append(arguments[i].as_str());
            line.append("\"");
        } else {
            line.append(arguments[i].as_str());
        }
        proof {
            assert(shown[i as int] == arguments@[i as int]@);
            assert(line@ =~= before + " "@ + shown_argument(shown, i as int));
            assert(line@ =~= quoted(program@) + shown_arguments(shown, (i + 1) as nat));
        }
        i += 1;
    }
    line
}

/// One run of the speech-recognition binary.
#[derive(Debug, PartialEq, Eq)]
pub struct WhisperInvocation {
    pub program: String,
    pub arguments: Vec<String>,
    /// The call as one line, for diagnosis.
    pub command: String,
}

/// Prepares the run of the binary `program` on `audio` with `model`.
pub fn whisper_invocation(
    config: &AppConfig,
    program: &str,
    model: &str,
    audio: &str,
    output_base: &str,
    language: Option<&str>,
) -> (invocation: WhisperInvocation)
    ensures
        invocation.program@ == program@,
        views(invocation.arguments@) == whisper_arguments(
            model@,
            audio@,
            output_base@,
            config.transcription.local.best_of,
            config.transcription.local.beam_size,
            call_language(text_of_slice(language), *config),
        ),
        invocation.command@ == whisper_command(
            program@,
            model@,
            audio@,
            output_base@,
            config.transcription.local.best_of,
            config.transcription.local.beam_size,
            call_language(text_of_slice(language), *config),
        ),
{
    let mut arguments: Vec<String> = Vec::new();
    arguments.push("-m".to_owned());
    arguments.push(model.to_owned());
    arguments.push("-f".to_owned());
    arguments.push(audio.to_owned());
    arguments.push("-otxt".to_owned());
    arguments.push("-of".to_owned());
    arguments.push(output_base.to_owned());
    arguments.push("--best-of".to_owned());
    arguments.push(decimal_string(config.transcription.local.best_of as u64));
    arguments.push("--beam-size".to_owned());
    arguments.push(decimal_string(config.transcription.local.beam_size as u64));
    let chosen = match language {
        Some(given) => given,
        None => config.effective_language(),
    };
    let spoken = trim(chosen);
    if !spoken.as_str().is_empty() {
        arguments.push("-l".to_owned());
        arguments.push(spoken);
    }
    let command = command_line_text(program, &arguments);
    proof {
        assert(views(arguments@) =~= whisper_arguments(
            model@,
            audio@,
            output_base@,
            config.transcription.local.best_of,
            config.transcription.local.beam_size,
            call_language(text_of_slice(language), *config),
        ));
    }
    WhisperInvocation { program: program.to_owned(), arguments, command }
}

/// Whether the binary ended well. A run without success is a failure that
/// carries the call, the exit code and everything the binary wrote.
pub fn check_whisper_exit(command: &str, output: &ProcessOutput) -> (result: Result<(), Failure>)
    ensures
        output.success ==> result is Ok,
        !output.success ==> result is Err && result->Err_0@ == (FailureView::WhisperExit {
            code: reported_code(output.code),
            command: command@,
            stdout: output.stdout@,
            stderr: output.stderr@,
        }),
{
    if output.success {
        Ok(())
    } else {
        Err(
            Failure::WhisperExit {
                code: exit_code(output.code),
                command: command.to_owned(),
                stdout: output.stdout.clone(),
                stderr: output.stderr.clone(),
            },
        )
    }
}

/// The answer of the local backend, from the transcript that the binary
/// wrote and from what it printed.
pub fn local_response(transcript: String, command: String, output: ProcessOutput) -> (response:
    TranscribeResponse)
    ensures
        response@ == (ResponseView {
            transcript: transcript@,
            stdout: output.stdout@,
            stderr: output.stderr@,
            command: command@,
            provider: TranscriptionProvider::Local.name_spec(),
        }),
{
    TranscribeResponse {
        transcript,
        stdout: output.stdout,
        stderr: output.stderr,
        command,
        provider: TranscriptionProvider::Local.name().to_owned(),
    }
}

/// What the remote endpoint is sent.
#[derive(Debug, PartialEq, Eq)]
pub struct RemoteRequest {
    /// Where the request is posted.
    pub endpoint: String,
    /// The value of the `Authorization` header.
    pub authorization: String,
    /// The part `file` of the form.
    pub audio: Vec<u8>,
    pub file_name: String,
    pub mime_type: String,
    /// The part `model` of the form.
    pub model: String,
    /// The part `language` of the form, where a language is set.
    pub language: Option<String>,
}

/// The characters of a `RemoteRequest`.
pub struct RemoteRequestView {
    pub endpoint: Seq<char>,
    pub authorization: Seq<char>,
    pub audio: Seq<u8>,
    pub file_name: Seq<char>,
    pub mime_type: Seq<char>,
    pub model: Seq<char>,
    pub language: Option<Seq<char>>,
}

impl View for RemoteRequest {
    type V = RemoteRequestView;

    open spec fn view(&self) -> RemoteRequestView {
        RemoteRequestView {
            endpoint: self.endpoint@,
            authorization: self.authorization@,
            audio: self.audio@,
            file_name: self.file_name@,
            mime_type: self.mime_type@,
            model: self.model@,
            language: text_of(self.language),
        }
    }
}

/// The request for `audio` under `config`.
pub open spec fn remote_request_for(
    config: AppConfig,
    audio: Seq<u8>,
    language: Option<Seq<char>>,
) -> RemoteRequestView {
    let chosen = call_language(language, config);
    RemoteRequestView {
        endpoint: config.transcription.openai_compatible.endpoint@,
        authorization: "Bearer "@ + config.transcription.openai_compatible.api_key@,
        audio,
        file_name: "audio.wav"@,
        mime_type: "audio/wav"@,
        model: config.transcription.openai_compatible.model@,
        language: if trimmed(chosen).len() > 0 {
            Some(chosen)
        } else {
            None
        },
    }
}

/// The request to the remote endpoint, given what decoding the audio gave:
/// the bytes, or the reason why the audio is no base64. Without an API key
/// or without an endpoint the backend is not configured, whatever the audio.
pub open spec fn remote_request_outcome(
    config: AppConfig,
    decoded: Result<Seq<u8>, Seq<char>>,
    language: Option<Seq<char>>,
) -> Result<RemoteRequestView, FailureView> {
    if config.transcription.openai_compatible.api_key@.len() == 0 {
        Err(FailureView::ApiKeyNotConfigured)
    } else if config.transcription.openai_compatible.endpoint@.len() == 0 {
        Err(FailureView::EndpointNotConfigured)
    } else {
        match decoded {
            Ok(audio) => Ok(remote_request_for(config, audio, language)),
            Err(detail) => Err(FailureView::Decode { detail }),
        }
    }
}

/// The view of decoded audio or of the reason why there is none.
pub open spec fn decoded_view(decoded: Result<Vec<u8>, String>) -> Result<Seq<u8>, Seq<char>> {
    match decoded {
        Ok(bytes) => Ok(bytes@),
        Err(detail) => Err(detail@),
    }
}

/// The view of a request or of the reason why there is none.
pub open spec fn request_result(result: Result<RemoteRequest, Failure>) -> Result<
    RemoteRequestView,
    FailureView,
> {
    match result {
        Ok(request) => Ok(request@),
        Err(failure) => Err(failure@),
    }
}

/// Prepares the request to the remote endpoint from audio that was decoded,
/// or could not be.
pub fn remote_request_from(
    config: &AppConfig,
    decoded: Result<Vec<u8>, String>,
    language: Option<&str>,
) -> (result: Result<RemoteRequest, Failure>)
    ensures
        request_result(result) == remote_request_outcome(
            *config,
            decoded_view(decoded),
            text_of_slice(language),
        ),
{
    let remote = &config.transcription.openai_compatible;
    if remote.api_key.as_str().is_empty() {
        return Err(Failure::ApiKeyNotConfigured);
    }
    if remote.endpoint.as_str().is_empty() {
        return Err(Failure::EndpointNotConfigured);
    }
    let audio = match decoded {
        Ok(bytes) => bytes,
        Err(detail) => {
            return Err(Failure::Decode { detail });
        },
    };
    let chosen = match language {
        Some(given) => given,
        None => config.effective_language(),
    };
    let spoken = if trim(chosen).as_str().is_empty() {
        None
    } else {
        Some(chosen.to_owned())
    };
    let mut authorization = "Bearer ".to_owned();
    authorization.append(remote.api_key.as_str());
    Ok(
        RemoteRequest {
            endpoint: remote.endpoint.clone(),
            authorization,
            audio,
            file_name: "audio.wav".to_owned(),
            mime_type: "audio/wav".to_owned(),
            model: remote.model.clone(),
            language: spoken,
        },
    )
}

/// Prepares the request to the remote endpoint for audio that arrives as
/// base64: the audio is decoded and the request follows
/// `remote_request_outcome`.
pub fn remote_request(config: &AppConfig, audio_base64: &str, language: Option<&str>) -> (result:
    Result<RemoteRequest, Failure>)
    ensures
        exists|decoded: Result<Seq<u8>, Seq<char>>|
            (match decoded {
                Ok(audio) => base64_decoded(audio_base64@) == Some(audio),
                Err(_) => base64_decoded(audio_base64@) is None,
            }) && request_result(result) == remote_request_outcome(
                *config,
                decoded,
                text_of_slice(language),
            ),
{
    let decoded = match decode_standard(audio_base64) {
        Ok(bytes) => Ok(bytes),
        Err(error) => Err(decode_error_message(&error)),
    };
    let ghost witness = decoded_view(decoded);
    let result = remote_request_from(config, decoded, language);
    proof {
        assert(request_result(result) == remote_request_outcome(
            *config,
            witness,
            text_of_slice(language),
        ));
    }
    result
}

/// Whether a status code is in the 2xx range.
pub open spec fn is_success_status(status: u16) -> bool {
    200 <= status < 300
}

/// What was read of the body of an answer: the text of its member `text`,
/// or the reason why the body is no JSON.
pub open spec fn body_reading(parsed: Result<JsonFacts, JsonFailure>) -> Result<
    Option<Seq<char>>,
    Seq<char>,
> {
    match parsed {
        Ok(facts) => Ok(text_of(facts.member)),
        Err(failure) => Err(failure.detail@),
    }
}

/// The meaning of an answer of the remote endpoint, given what was read of
/// its body. An answer outside the 2xx range is a failure that carries the
/// status and the body; a 2xx body must be JSON, and its text member `text`
/// is the transcript, which is empty where the body has no such member.
pub open spec fn remote_outcome(
    endpoint: Seq<char>,
    status: u16,
    status_text: Seq<char>,
    body: Seq<char>,
    reading: Result<Option<Seq<char>>, Seq<char>>,
) -> Result<ResponseView, FailureView> {
    if !is_success_status(status) {
        Err(FailureView::RemoteApi { status: status_text, body })
    } else {
        match reading {
            Err(detail) => Err(FailureView::Parse { document: Document::ApiResponse, detail }),
            Ok(text) => Ok(
                ResponseView {
                    transcript: match text {
                        Some(transcript) => transcript,
                        None => Seq::empty(),
                    },
                    stdout: Seq::empty(),
                    stderr: Seq::empty(),
                    command: "POST "@ + endpoint,
                    provider: TranscriptionProvider::OpenAICompatible.name_spec(),
                },
            ),
        }
    }
}

/// Gives the answer of the remote endpoint its meaning, from what was read
/// of its body.
pub fn remote_answer(
    endpoint: &str,
    status: u16,
    status_text: &str,
    body: &str,
    parsed: Result<JsonFacts, JsonFailure>,
) -> (result: Result<TranscribeResponse, Failure>)
    ensures
        response_result(result) == remote_outcome(
            endpoint@,
            status,
            status_text@,
            body@,
            body_reading(parsed),
        ),
{
    if !(200 <= status && status < 300) {
        return Err(Failure::RemoteApi { status: status_text.to_owned(), body: body.to_owned() });
    }
    let transcript = match parsed {
        Ok(facts) => match facts.member {
            Some(text) => text,
            None => String::new(),
        },
        Err(failure) => {
            return Err(Failure::Parse { document: Document::ApiResponse, detail: failure.detail });
        },
    };
    let mut command = "POST ".to_owned();
    command.append(endpoint);
    Ok(
        TranscribeResponse {
            transcript,
            stdout: String::new(),
            stderr: String::new(),
            command,
            provider: TranscriptionProvider::OpenAICompatible.name().to_owned(),
        },
    )
}

/// Reads the answer of the remote endpoint: the body is read as JSON and the
/// answer follows `remote_outcome`.
pub fn remote_response(endpoint: &str, status: u16, status_text: &str, body: &str) -> (result:
    Result<TranscribeResponse, Failure>)
    ensures
        exists|reading: Result<Option<Seq<char>>, Seq<char>>|
            (match reading {
                Ok(text) => json_parses(body@) && text == json_member_text(body@, "text"@),
                Err(_) => !json_parses(body@),
            }) && response_result(result) == remote_outcome(
                endpoint@,
                status,
                status_text@,
                body@,
                reading,
            ),
{
    let parsed = parse_member(body, "text");
    let ghost witness = body_reading(parsed);
    let result = remote_answer(endpoint, status, status_text, body, parsed);
    proof {
        assert(response_result(result) == remote_outcome(
            endpoint@,
            status,
            status_text@,
            body@,
            witness,
        ));
    }
    result
}

/// What subscribers are told about one chunk of a streaming session.
#[derive(Debug, PartialEq, Eq)]
pub enum ChunkEvent {
    /// The chunk was transcribed and added to its session.
    Transcribed { session_id: String, chunk_index: u32, text: String, provider: String },
    /// The chunk was lost, with the reason.
    Failed { session_id: String, chunk_index: u32, error: String },
}

/// The characters of a `ChunkEvent`.
pub enum ChunkEventView {
    Transcribed { session_id: Seq<char>, chunk_index: u32, text: Seq<char>, provider: Seq<char> },
    Failed { session_id: Seq<char>, chunk_index: u32, error: Seq<char> },
}

impl View for ChunkEvent {
    type V = ChunkEventView;

    open spec fn view(&self) -> ChunkEventView {
        match self {
            ChunkEvent::Transcribed { session_id, chunk_index, text, provider } => {
                ChunkEventView::Transcribed {
                    session_id: session_id@,
                    chunk_index: *chunk_index,
                    text: text@,
                    provider: provider@,
                }
            },
            ChunkEvent::Failed { session_id, chunk_index, error } => ChunkEventView::Failed {
                session_id: session_id@,
                chunk_index: *chunk_index,
                error: error@,
            },
        }
    }
}

impl ChunkEvent {
    /// The name under which subscribers receive the event.
    pub fn event_name(&self) -> (r: &'static str)
        ensures
            r@ == match self@ {
                ChunkEventView::Transcribed { .. } => "transcription-chunk"@,
                ChunkEventView::Failed { .. } => "transcription-error"@,
            },
    {
        match self {
            ChunkEvent::Transcribed { .. } => "transcription-chunk",
            ChunkEvent::Failed { .. } => "transcription-error",
        }
    }
}

/// The view of a transcription that succeeded or failed.
pub open spec fn outcome_view(outcome: Result<TranscribeResponse, Failure>) -> Result<
    ResponseView,
    FailureView,
> {
    response_result(outcome)
}

/// The registry, the event and the result after the transcription of one
/// chunk came back. A transcript is added to its session; a transcription
/// that failed, or a session that is gone, leaves the registry as it is and
/// is reported with its message.
pub open spec fn chunk_effect(
    sessions: Map<Seq<char>, SessionView>,
    session_id: Seq<char>,
    chunk_index: u32,
    outcome: Result<ResponseView, FailureView>,
) -> (Map<Seq<char>, SessionView>, ChunkEventView, Result<(), FailureView>) {
    match outcome {
        Ok(response) => {
            let chunk = ChunkView { index: chunk_index, text: response.transcript };
            if sessions.dom().contains(session_id) {
                (
                    append_effect(sessions, session_id, chunk).0,
                    ChunkEventView::Transcribed {
                        session_id,
                        chunk_index,
                        text: response.transcript,
                        provider: response.provider,
                    },
                    Ok(()),
                )
            } else {
                let failure = FailureView::Session(SessionError::SessionNotFound);
                (
                    sessions,
                    ChunkEventView::Failed { session_id, chunk_index, error: failure.message() },
                    Err(failure),
                )
            }
        },
        Err(failure) => (
            sessions,
            ChunkEventView::Failed { session_id, chunk_index, error: failure.message() },
            Err(failure),
        ),
    }
}

/// The view of a step that succeeded or failed.
pub open spec fn unit_result(result: Result<(), Failure>) -> Result<(), FailureView> {
    match result {
        Ok(()) => Ok(()),
        Err(failure) => Err(failure@),
    }
}

/// Takes the transcription of one chunk: adds the transcript to the session
/// and says what to tell the subscribers and the caller.
pub fn record_chunk(
    registry: &mut SessionRegistry,
    session_id: &str,
    chunk_index: u32,
    outcome: Result<TranscribeResponse, Failure>,
) -> (reported: (ChunkEvent, Result<(), Failure>))
    ensures
        (final(registry)@, reported.0@, unit_result(reported.1)) == chunk_effect(
            old(registry)@,
            session_id@,
            chunk_index,
            outcome_view(outcome),
        ),
{
    match outcome {
        Ok(response) => {
            match registry.append_chunk(session_id, chunk_index, response.transcript.clone()) {
                Ok(()) => (
                    ChunkEvent::Transcribed {
                        session_id: session_id.to_owned(),
                        chunk_index,
                        text: response.transcript,
                        provider: response.provider,
                    },
                    Ok(()),
                ),
                Err(error) => {
                    let failure = Failure::Session(error);
                    (
                        ChunkEvent::Failed {
                            session_id: session_id.to_owned(),
                            chunk_index,
                            error: failure.message(),
                        },
                        Err(failure),
                    )
                },
            }
        },
        Err(failure) => (
            ChunkEvent::Failed {
                session_id: session_id.to_owned(),
                chunk_index,
                error: failure.message(),
            },
            Err(failure),
        ),
    }
}

} // verus!
