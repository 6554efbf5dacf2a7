use voxii::config::{
    default_beam_size, default_best_of, default_chunk_duration, default_format, default_model,
    default_openai_endpoint, default_overlap, default_theme, default_true, default_version,
    default_whisper_model, AppConfig, StreamingConfig, TranscriptionProvider,
};

#[test]
fn defaults_for_missing_settings() {
    assert!(default_true());
    assert_eq!(default_chunk_duration(), 5000);
    assert_eq!(default_overlap(), 500);
    assert_eq!(default_beam_size(), 5);
    assert_eq!(default_best_of(), 5);
    assert_eq!(default_openai_endpoint(), "https://api.openai.com/v1/audio/transcriptions");
    assert_eq!(default_whisper_model(), "whisper-1");
    assert_eq!(default_model(), "gpt-4.1");
    assert_eq!(default_format(), "markdown");
    assert_eq!(default_theme(), "system");
    assert_eq!(default_version(), 2);
}

#[test]
fn default_configuration_is_empty_but_for_version_and_system_audio() {
    let config = AppConfig::default();
    assert_eq!(config.version, 2);
    assert_eq!(config.transcription.provider, TranscriptionProvider::Local);
    assert_eq!(config.transcription.language, "");
    assert_eq!(
        config.transcription.streaming,
        StreamingConfig { enabled: false, chunk_duration_ms: 0, overlap_ms: 0 }
    );
    assert_eq!(config.transcription.local.whisper_path, "");
    assert_eq!(config.transcription.local.model_path, "");
    assert_eq!(config.transcription.local.model_name, "");
    assert_eq!(config.transcription.local.beam_size, 0);
    assert_eq!(config.transcription.local.best_of, 0);
    assert_eq!(config.transcription.openai_compatible.endpoint, "");
    assert_eq!(config.transcription.openai_compatible.api_key, "");
    assert_eq!(config.transcription.openai_compatible.model, "");
    assert_eq!(config.ai.default_model, "");
    assert_eq!(config.export.default_format, "");
    assert_eq!(config.export.local_path, "");
    assert_eq!(config.ui.theme, "");
    assert!(!config.ui.show_diagnostics);
    assert!(!config.ui.include_system_audio);
    assert_eq!(config.whisper_path, "");
    assert_eq!(config.model_path, "");
    assert_eq!(config.language, "");
    assert!(config.include_system_audio);
    assert_eq!(config.default_model, "");
}

fn first_format() -> AppConfig {
    let mut config = AppConfig::default();
    config.version = 1;
    config.whisper_path = "/old/whisper".to_string();
    config.model_path = "/old/models".to_string();
    config.language = "de".to_string();
    config.include_system_audio = true;
    config.default_model = "gpt-old".to_string();
    config.transcription.local.whisper_path = "/new/whisper".to_string();
    config.transcription.local.model_name = "tiny.bin".to_string();
    config.transcription.language = "fr".to_string();
    config.ai.default_model = "gpt-new".to_string();
    config.ui.theme = "dark".to_string();
    config
}

#[test]
fn migration_moves_the_first_format_to_its_places() {
    let mut config = first_format();
    config.migrate_from_v1();
    let mut expected = first_format();
    expected.version = 2;
    expected.transcription.local.whisper_path = "/old/whisper".to_string();
    expected.transcription.local.model_path = "/old/models".to_string();
    expected.transcription.language = "de".to_string();
    expected.ui.include_system_audio = true;
    expected.ai.default_model = "gpt-old".to_string();
    assert_eq!(config, expected);
}

#[test]
fn migration_keeps_what_the_first_format_leaves_empty() {
    let mut config = AppConfig::default();
    config.version = 0;
    config.include_system_audio = false;
    config.transcription.local.whisper_path = "/new/whisper".to_string();
    config.transcription.local.model_path = "/new/models".to_string();
    config.transcription.language = "fr".to_string();
    config.ai.default_model = "gpt-new".to_string();
    config.ui.include_system_audio = true;
    let mut expected = config.clone();
    expected.version = 2;
    expected.ui.include_system_audio = false;
    config.migrate_from_v1();
    assert_eq!(config, expected);
}

#[test]
fn migration_leaves_the_second_format_alone() {
    for version in [2, 3, u32::MAX] {
        let mut config = first_format();
        config.version = version;
        let before = config.clone();
        assert!(!config.migrate_if_needed());
        assert_eq!(config, before);
        config.migrate_from_v1();
        assert_eq!(config, before);
    }
}

#[test]
fn migration_happens_once() {
    let mut config = first_format();
    assert!(config.migrate_if_needed());
    let migrated = config.clone();
    assert_eq!(migrated.version, 2);
    assert!(!config.migrate_if_needed());
    assert_eq!(config, migrated);
}

#[test]
fn effective_paths_prefer_the_second_format() {
    let mut config = AppConfig::default();
    assert_eq!(config.effective_whisper_path(), "");
    assert_eq!(config.effective_model_path(), "");
    config.whisper_path = "/old/whisper".to_string();
    config.model_path = "/old/models".to_string();
    assert_eq!(config.effective_whisper_path(), "/old/whisper");
    assert_eq!(config.effective_model_path(), "/old/models");
    config.transcription.local.whisper_path = "/new/whisper".to_string();
    config.transcription.local.model_path = "/new/models".to_string();
    assert_eq!(config.effective_whisper_path(), "/new/whisper");
    assert_eq!(config.effective_model_path(), "/new/models");
}

#[test]
fn effective_language_falls_back_to_english() {
    let mut config = AppConfig::default();
    assert_eq!(config.effective_language(), "en");
    config.language = "de".to_string();
    assert_eq!(config.effective_language(), "de");
    config.transcription.language = "fr".to_string();
    assert_eq!(config.effective_language(), "fr");
    config.transcription.language = " ".to_string();
    assert_eq!(config.effective_language(), " ");
}

#[test]
fn transcription_status_says_what_is_configured() {
    let mut config = AppConfig::default();
    config.transcription.provider = TranscriptionProvider::Auto;
    config.transcription.streaming =
        StreamingConfig { enabled: true, chunk_duration_ms: 5000, overlap_ms: 500 };
    let status = config.get_transcription_config();
    assert_eq!(status.provider, TranscriptionProvider::Auto);
    assert_eq!(status.streaming, config.transcription.streaming);
    assert!(!status.local_configured);
    assert!(!status.openai_configured);
    config.whisper_path = "/old/whisper".to_string();
    assert!(!config.get_transcription_config().local_configured);
    config.transcription.local.model_path = "/new/models".to_string();
    assert!(config.get_transcription_config().local_configured);
    config.transcription.openai_compatible.api_key = "k".to_string();
    assert!(config.get_transcription_config().openai_configured);
}

#[test]
fn provider_names_are_read_back() {
    for provider in [
        TranscriptionProvider::Local,
        TranscriptionProvider::OpenAICompatible,
        TranscriptionProvider::Auto,
    ] {
        assert_eq!(TranscriptionProvider::from_name(provider.name()), Some(provider));
    }
    assert_eq!(TranscriptionProvider::Local.name(), "local");
    assert_eq!(TranscriptionProvider::OpenAICompatible.name(), "openai-compatible");
    assert_eq!(TranscriptionProvider::Auto.name(), "auto");
    assert_eq!(TranscriptionProvider::from_name("Local"), None);
    assert_eq!(TranscriptionProvider::from_name("openai"), None);
    assert_eq!(TranscriptionProvider::from_name(""), None);
    assert_eq!(TranscriptionProvider::default(), TranscriptionProvider::Local);
}
