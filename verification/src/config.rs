//! Configuration of the application: which backend transcribes, with which
//! paths, and the values that stand in for what a configuration file leaves
//! out.

use vstd::prelude::*;
use crate::text::same_text;

verus! {

/// The backend that turns audio into text.
#[derive(Clone, Copy, Debug, PartialEq, Eq, Structural)]
pub enum TranscriptionProvider {
    /// The speech-recognition binary on this machine.
    Local,
    /// A remote endpoint that speaks the OpenAI transcription protocol.
    OpenAICompatible,
    /// Whatever the configuration prefers; it runs as `Local`.
    Auto,
}

impl Default for TranscriptionProvider {
    fn default() -> (r: Self)
        ensures
            r == TranscriptionProvider::Local,
    {
        TranscriptionProvider::Local
    }
}

impl TranscriptionProvider {
    /// The name of the provider in configuration files and requests.
    pub open spec fn name_spec(self) -> Seq<char> {
        match self {
            TranscriptionProvider::Local => "local"@,
            TranscriptionProvider::OpenAICompatible => "openai-compatible"@,
            TranscriptionProvider::Auto => "auto"@,
        }
    }

    /// The name of the provider in configuration files and requests.
    pub fn name(self) -> (r: &'static str)
        ensures
            r@ == self.name_spec(),
    {
        match self {
            TranscriptionProvider::Local => "local",
            TranscriptionProvider::OpenAICompatible => "openai-compatible",
            TranscriptionProvider::Auto => "auto",
        }
    }

    /// The provider of that name, if it is one of the three names.
    pub open spec fn named(name: Seq<char>) -> Option<TranscriptionProvider> {
        if name == "local"@ {
            Some(TranscriptionProvider::Local)
        } else if name == "openai-compatible"@ {
            Some(TranscriptionProvider::OpenAICompatible)
        } else if name == "auto"@ {
            Some(TranscriptionProvider::Auto)
        } else {
            None
        }
    }

    /// Reads a provider's name.
    pub fn from_name(name: &str) -> (r: Option<TranscriptionProvider>)
        ensures
            r == Self::named(name@),
    {
        if same_text(name, "local") {
            Some(TranscriptionProvider::Local)
        } else if same_text(name, "openai-compatible") {
            Some(TranscriptionProvider::OpenAICompatible)
        } else if same_text(name, "auto") {
            Some(TranscriptionProvider::Auto)
        } else {
            None
        }
    }
}

/// Reading a provider's own name gives the provider back.
pub proof fn provider_names_round_trip(provider: TranscriptionProvider)
    ensures
        TranscriptionProvider::named(provider.name_spec()) == Some(provider),
{
    reveal_strlit("local");
    reveal_strlit("openai-compatible");
    reveal_strlit("auto");
    assert("local"@.len() != "openai-compatible"@.len());
    assert("local"@.len() != "auto"@.len());
    assert("openai-compatible"@.len() != "auto"@.len());
}

/// How audio is cut for streaming transcription.
#[derive(Clone, Copy, Debug, PartialEq, Eq, Structural)]
pub struct StreamingConfig {
    pub enabled: bool,
    pub chunk_duration_ms: u32,
    pub overlap_ms: u32,
}

impl Default for StreamingConfig {
    fn default() -> (r: Self)
        ensures
            r == (StreamingConfig { enabled: false, chunk_duration_ms: 0, overlap_ms: 0 }),
    {
        StreamingConfig { enabled: false, chunk_duration_ms: 0, overlap_ms: 0 }
    }
}

/// Whether streaming is on where a configuration file does not say.
pub fn default_true() -> (r: bool)
    ensures
        r,
{
    true
}

/// Length of a streamed chunk in milliseconds where a configuration file does
/// not say.
pub fn default_chunk_duration() -> (r: u32)
    ensures
        r == 5000,
{
    5000
}

/// Overlap of two streamed chunks in milliseconds where a configuration file
/// does not say.
pub fn default_overlap() -> (r: u32)
    ensures
        r == 500,
{
    500
}

/// Settings of the speech-recognition binary.
#[derive(Debug, PartialEq, Eq)]
pub struct LocalTranscriptionConfig {
    /// The binary, or the directory that holds it.
    pub whisper_path: String,
    /// A model file, or the directory that holds the models.
    pub model_path: String,
    /// The model to take from that directory; empty for the preferred one.
    pub model_name: String,
    pub beam_size: u32,
    pub best_of: u32,
}

impl Default for LocalTranscriptionConfig {
    fn default() -> (r: Self)
        ensures
            r.whisper_path@.len() == 0,
            r.model_path@.len() == 0,
            r.model_name@.len() == 0,
            r.beam_size == 0,
            r.best_of == 0,
    {
        LocalTranscriptionConfig {
            whisper_path: String::new(),
            model_path: String::new(),
            model_name: String::new(),
            beam_size: 0,
            best_of: 0,
        }
    }
}

impl Clone for LocalTranscriptionConfig {
    fn clone(&self) -> (r: Self)
        ensures
            r == *self,
    {
        LocalTranscriptionConfig {
            whisper_path: self.whisper_path.clone(),
            model_path: self.model_path.clone(),
            model_name: self.model_name.clone(),
            beam_size: self.beam_size,
            best_of: self.best_of,
        }
    }
}

/// Beam size where a configuration file does not say.
pub fn default_beam_size() -> (r: u32)
    ensures
        r == 5,
{
    5
}

/// Number of candidates where a configuration file does not say.
pub fn default_best_of() -> (r: u32)
    ensures
        r == 5,
{
    5
}

/// Settings of the remote transcription endpoint.
#[derive(Debug, PartialEq, Eq)]
pub struct OpenAICompatibleConfig {
    pub endpoint: String,
    pub api_key: String,
    pub model: String,
}

impl Default for OpenAICompatibleConfig {
    fn default() -> (r: Self)
        ensures
            r.endpoint@.len() == 0,
            r.api_key@.len() == 0,
            r.model@.len() == 0,
    {
        OpenAICompatibleConfig {
            endpoint: String::new(),
            api_key: String::new(),
            model: String::new(),
        }
    }
}

impl Clone for OpenAICompatibleConfig {
    fn clone(&self) -> (r: Self)
        ensures
            r == *self,
    {
        OpenAICompatibleConfig {
            endpoint: self.endpoint.clone(),
            api_key: self.api_key.clone(),
            model: self.model.clone(),
        }
    }
}

/// The endpoint where a configuration file names none.
pub fn default_openai_endpoint() -> (r: String)
    ensures
        r@ == "https://api.openai.com/v1/audio/transcriptions"@,
{
    "https://api.openai.com/v1/audio/transcriptions".to_owned()
}

/// The remote model where a configuration file names none.
pub fn default_whisper_model() -> (r: String)
    ensures
        r@ == "whisper-1"@,
{
    "whisper-1".to_owned()
}

/// Everything about transcription.
#[derive(Debug, PartialEq, Eq)]
pub struct TranscriptionConfig {
    pub provider: TranscriptionProvider,
    pub language: String,
    pub streaming: StreamingConfig,
    pub local: LocalTranscriptionConfig,
    pub openai_compatible: OpenAICompatibleConfig,
}

impl Default for TranscriptionConfig {
    fn default() -> (r: Self)
        ensures
            r.provider == TranscriptionProvider::Local,
            r.language@.len() == 0,
            r.streaming == (StreamingConfig { enabled: false, chunk_duration_ms: 0, overlap_ms: 0 }),
            r.local.whisper_path@.len() == 0,
            r.local.model_path@.len() == 0,
            r.local.model_name@.len() == 0,
            r.local.beam_size == 0,
            r.local.best_of == 0,
            r.openai_compatible.endpoint@.len() == 0,
            r.openai_compatible.api_key@.len() == 0,
            r.openai_compatible.model@.len() == 0,
    {
        TranscriptionConfig {
            provider: TranscriptionProvider::default(),
            language: String::new(),
            streaming: StreamingConfig::default(),
            local: LocalTranscriptionConfig::default(),
            openai_compatible: OpenAICompatibleConfig::default(),
        }
    }
}

impl Clone for TranscriptionConfig {
    fn clone(&self) -> (r: Self)
        ensures
            r == *self,
    {
        TranscriptionConfig {
            provider: self.provider,
            language: self.language.clone(),
            streaming: self.streaming,
            local: self.local.clone(),
            openai_compatible: self.openai_compatible.clone(),
        }
    }
}

/// Settings of the text-processing workers.
#[derive(Debug, PartialEq, Eq)]
pub struct AIConfig {
    pub default_model: String,
}

impl Default for AIConfig {
    fn default() -> (r: Self)
        ensures
            r.default_model@.len() == 0,
    {
        AIConfig { default_model: String::new() }
    }
}

impl Clone for AIConfig {
    fn clone(&self) -> (r: Self)
        ensures
            r == *self,
    {
        AIConfig { default_model: self.default_model.clone() }
    }
}

/// The worker model where a configuration file names none.
pub fn default_model() -> (r: String)
    ensures
        r@ == "gpt-4.1"@,
{
    "gpt-4.1".to_owned()
}

/// Where and how meetings are exported.
#[derive(Debug, PartialEq, Eq)]
pub struct ExportConfig {
    pub default_format: String,
    pub local_path: String,
}

impl Default for ExportConfig {
    fn default() -> (r: Self)
        ensures
            r.default_format@.len() == 0,
            r.local_path@.len() == 0,
    {
        ExportConfig { default_format: String::new(), local_path: String::new() }
    }
}

impl Clone for ExportConfig {
    fn clone(&self) -> (r: Self)
        ensures
            r == *self,
    {
        ExportConfig {
            default_format: self.default_format.clone(),
            local_path: self.local_path.clone(),
        }
    }
}

/// The export format where a configuration file names none.
pub fn default_format() -> (r: String)
    ensures
        r@ == "markdown"@,
{
    "markdown".to_owned()
}

/// Settings of the user interface.
#[derive(Debug, PartialEq, Eq)]
pub struct UIConfig {
    pub theme: String,
    pub show_diagnostics: bool,
    pub include_system_audio: bool,
}

impl Default for UIConfig {
    fn default() -> (r: Self)
        ensures
            r.theme@.len() == 0,
            !r.show_diagnostics,
            !r.include_system_audio,
    {
        UIConfig { theme: String::new(), show_diagnostics: false, include_system_audio: false }
    }
}

impl Clone for UIConfig {
    fn clone(&self) -> (r: Self)
        ensures
            r == *self,
    {
        UIConfig {
            theme: self.theme.clone(),
            show_diagnostics: self.show_diagnostics,
            include_system_audio: self.include_system_audio,
        }
    }
}

/// The theme where a configuration file names none.
pub fn default_theme() -> (r: String)
    ensures
        r@ == "system"@,
{
    "system".to_owned()
}

/// The whole configuration. The last five fields are those of the first
/// format of the file; `migrate_from_v1` moves them to their places.
#[derive(Debug, PartialEq, Eq)]
pub struct AppConfig {
    pub version: u32,
    pub transcription: TranscriptionConfig,
    pub ai: AIConfig,
    pub export: ExportConfig,
    pub ui: UIConfig,
    pub whisper_path: String,
    pub model_path: String,
    pub language: String,
    pub include_system_audio: bool,
    pub default_model: String,
}

/// The format version where a configuration file names none.
pub fn default_version() -> (r: u32)
    ensures
        r == 2,
{
    2
}

impl Default for AppConfig {
    fn default() -> (r: Self)
        ensures
            r.version == 2,
            r.transcription.provider == TranscriptionProvider::Local,
            r.transcription.language@.len() == 0,
            r.transcription.streaming == (StreamingConfig {
                enabled: false,
                chunk_duration_ms: 0,
                overlap_ms: 0,
            }),
            r.transcription.local.whisper_path@.len() == 0,
            r.transcription.local.model_path@.len() == 0,
            r.transcription.local.model_name@.len() == 0,
            r.transcription.local.beam_size == 0,
            r.transcription.local.best_of == 0,
            r.transcription.openai_compatible.endpoint@.len() == 0,
            r.transcription.openai_compatible.api_key@.len() == 0,
            r.transcription.openai_compatible.model@.len() == 0,
            r.ai.default_model@.len() == 0,
            r.export.default_format@.len() == 0,
            r.export.local_path@.len() == 0,
            r.ui.theme@.len() == 0,
            !r.ui.show_diagnostics,
            !r.ui.include_system_audio,
            r.whisper_path@.len() == 0,
            r.model_path@.len() == 0,
            r.language@.len() == 0,
            r.include_system_audio,
            r.default_model@.len() == 0,
    {
        AppConfig {
            version: 2,
            transcription: TranscriptionConfig::default(),
            ai: AIConfig::default(),
            export: ExportConfig::default(),
            ui: UIConfig::default(),
            whisper_path: String::new(),
            model_path: String::new(),
            language: String::new(),
            include_system_audio: true,
            default_model: String::new(),
        }
    }
}

impl Clone for AppConfig {
    fn clone(&self) -> (r: Self)
        ensures
            r == *self,
    {
        AppConfig {
            version: self.version,
            transcription: self.transcription.clone(),
            ai: self.ai.clone(),
            export: self.export.clone(),
            ui: self.ui.clone(),
            whisper_path: self.whisper_path.clone(),
            model_path: self.model_path.clone(),
            language: self.language.clone(),
            include_system_audio: self.include_system_audio,
            default_model: self.default_model.clone(),
        }
    }
}

/// `first` unless it is empty, else `second`.
pub open spec fn first_set(first: String, second: String) -> String {
    if first@.len() > 0 {
        first
    } else {
        second
    }
}

/// The configuration in the second format that says what `config` says. A
/// text of the first format replaces its successor where it is not empty; the
/// system-audio switch is always taken over.
pub open spec fn migrated(config: AppConfig) -> AppConfig {
    if config.version < 2 {
        AppConfig {
            version: 2,
            transcription: TranscriptionConfig {
                language: first_set(config.language, config.transcription.language),
                local: LocalTranscriptionConfig {
                    whisper_path: first_set(
                        config.whisper_path,
                        config.transcription.local.whisper_path,
                    ),
                    model_path: first_set(config.model_path, config.transcription.local.model_path),
                    ..config.transcription.local
                },
                ..config.transcription
            },
            ai: AIConfig { default_model: first_set(config.default_model, config.ai.default_model) },
            ui: UIConfig { include_system_audio: config.include_system_audio, ..config.ui },
            ..config
        }
    } else {
        config
    }
}

/// What the user interface is told about the transcription settings.
#[derive(Clone, Copy, Debug, PartialEq, Eq, Structural)]
pub struct TranscriptionStatus {
    pub provider: TranscriptionProvider,
    pub streaming: StreamingConfig,
    /// A binary and a model are configured.
    pub local_configured: bool,
    /// An API key is configured.
    pub openai_configured: bool,
}

impl AppConfig {
    /// Brings a configuration of the first format to the second. A
    /// configuration that is already there stays as it is.
    pub fn migrate_from_v1(&mut self)
        ensures
            *final(self) == migrated(*old(self)),
    {
        if self.version < 2 {
            if !self.whisper_path.as_str().is_empty() {
                self.transcription.local.whisper_path = self.whisper_path.clone();
            }
            if !self.model_path.as_str().is_empty() {
                self.transcription.local.model_path = self.model_path.clone();
            }
            if !self.language.as_str().is_empty() {
                self.transcription.language = self.language.clone();
            }
            self.ui.include_system_audio = self.include_system_audio;
            if !self.default_model.as_str().is_empty() {
                self.ai.default_model = self.default_model.clone();
            }
            self.version = 2;
        }
    }

    /// Migrates where the configuration is of the first format, and says
    /// whether it did, so that the caller can store the result.
    pub fn migrate_if_needed(&mut self) -> (changed: bool)
        ensures
            changed == (old(self).version < 2),
            *final(self) == migrated(*old(self)),
    {
        if self.version < 2 {
            self.migrate_from_v1();
            true
        } else {
            false
        }
    }

    /// The path of the binary: the one of the second format unless that is
    /// empty, else the one of the first.
    pub open spec fn effective_whisper_path_spec(&self) -> Seq<char> {
        if self.transcription.local.whisper_path@.len() > 0 {
            self.transcription.local.whisper_path@
        } else {
            self.whisper_path@
        }
    }

    /// The path of the binary, with the first format as fallback.
    pub fn effective_whisper_path(&self) -> (r: &str)
        ensures
            r@ == self.effective_whisper_path_spec(),
    {
        if !self.transcription.local.whisper_path.as_str().is_empty() {
            self.transcription.local.whisper_path.as_str()
        } else {
            self.whisper_path.as_str()
        }
    }

    /// The path of the models: the one of the second format unless that is
    /// empty, else the one of the first.
    pub open spec fn effective_model_path_spec(&self) -> Seq<char> {
        if self.transcription.local.model_path@.len() > 0 {
            self.transcription.local.model_path@
        } else {
            self.model_path@
        }
    }

    /// The path of the models, with the first format as fallback.
    pub fn effective_model_path(&self) -> (r: &str)
        ensures
            r@ == self.effective_model_path_spec(),
    {
        if !self.transcription.local.model_path.as_str().is_empty() {
            self.transcription.local.model_path.as_str()
        } else {
            self.model_path.as_str()
        }
    }

    /// The language: the one of the second format, else the one of the
    /// first, else English.
    pub open spec fn effective_language_spec(&self) -> Seq<char> {
        if self.transcription.language@.len() > 0 {
            self.transcription.language@
        } else if self.language@.len() > 0 {
            self.language@
        } else {
            "en"@
        }
    }

    /// The language to transcribe in.
    pub fn effective_language(&self) -> (r: &str)
        ensures
            r@ == self.effective_language_spec(),
    {
        if !self.transcription.language.as_str().is_empty() {
            self.transcription.language.as_str()
        } else if !self.language.as_str().is_empty() {
            self.language.as_str()
        } else {
            "en"
        }
    }

    /// A summary of the transcription settings for the user interface.
    pub fn get_transcription_config(&self) -> (r: TranscriptionStatus)
        ensures
            r.provider == self.transcription.provider,
            r.streaming == self.transcription.streaming,
            r.local_configured == (self.effective_whisper_path_spec().len() > 0
                && self.effective_model_path_spec().len() > 0),
            r.openai_configured == (self.transcription.openai_compatible.api_key@.len() > 0),
    {
        TranscriptionStatus {
            provider: self.transcription.provider,
            streaming: self.transcription.streaming,
            local_configured: !self.effective_whisper_path().is_empty()
                && !self.effective_model_path().is_empty(),
            openai_configured: !self.transcription.openai_compatible.api_key.as_str().is_empty(),
        }
    }
}

/// Migration reaches the second format and then changes nothing more.
pub proof fn migration_is_idempotent(config: AppConfig)
    ensures
        migrated(config).version >= 2,
        migrated(migrated(config)) == migrated(config),
{
}

/// Migration moves the paths to where the effective paths are read first, so
/// a path of the first format that is set stays the effective one.
pub proof fn migration_keeps_first_format_paths(config: AppConfig)
    requires
        config.version < 2,
    ensures
        config.whisper_path@.len() > 0 ==> migrated(config).effective_whisper_path_spec()
            == config.whisper_path@,
        config.model_path@.len() > 0 ==> migrated(config).effective_model_path_spec()
            == config.model_path@,
        config.language@.len() > 0 ==> migrated(config).effective_language_spec()
            == config.language@,
{
}

} // verus!
