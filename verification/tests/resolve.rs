use voxii::models::{
    is_model_name, list_local_models, preferred_models, resolve_model_path,
    resolve_model_path_with_selection, ModelFile, ModelProbe,
};
use voxii::resolve::{
    resolve_whisper_path, whisper_candidates, FileProbe, PathKind, Platform, ResolveError,
};
use voxii::text::text_precedes;

const MB: u64 = 1024 * 1024;

fn probe(name: &str, is_file: bool) -> FileProbe {
    FileProbe { name: name.to_string(), path: format!("/opt/whisper/{}", name), is_file }
}

fn model(name: &str, size: u64) -> ModelFile {
    ModelFile { path: format!("/models/{}", name), file_name: name.to_string(), is_file: true, size }
}

fn directory_probe(entries: Vec<ModelFile>) -> ModelProbe {
    ModelProbe {
        selection_is_file: false,
        base_kind: PathKind::Directory,
        selected_path: String::new(),
        selected_is_file: false,
        entries,
    }
}

#[test]
fn whisper_candidates_depend_on_the_platform() {
    assert_eq!(whisper_candidates(Platform::Windows), vec!["whisper-cli.exe", "main.exe", "whisper.exe"]);
    for platform in [Platform::MacOs, Platform::Linux, Platform::Other] {
        assert_eq!(whisper_candidates(platform), vec!["whisper-cli", "whisper", "main"]);
    }
}

#[test]
fn configured_file_is_taken_as_the_binary() {
    let probes = vec![probe("whisper-cli", true)];
    assert_eq!(
        resolve_whisper_path("/usr/bin/whisper", PathKind::File, Platform::Linux, &probes),
        Ok("/usr/bin/whisper".to_string())
    );
}

#[test]
fn first_candidate_in_a_directory_wins() {
    let probes = vec![probe("main", true), probe("whisper", true), probe("whisper-cli", false)];
    assert_eq!(
        resolve_whisper_path("/opt/whisper", PathKind::Directory, Platform::Linux, &probes),
        Ok("/opt/whisper/whisper".to_string())
    );
    let probes = vec![probe("main", true), probe("whisper", true), probe("whisper-cli", true)];
    assert_eq!(
        resolve_whisper_path("/opt/whisper", PathKind::Directory, Platform::MacOs, &probes),
        Ok("/opt/whisper/whisper-cli".to_string())
    );
}

#[test]
fn windows_looks_for_exe_names_only() {
    let probes = vec![probe("whisper-cli", true), probe("whisper.exe", true), probe("main.exe", true)];
    assert_eq!(
        resolve_whisper_path("C:\\whisper", PathKind::Directory, Platform::Windows, &probes),
        Ok("/opt/whisper/main.exe".to_string())
    );
    let probes = vec![probe("whisper-cli", true), probe("main", true)];
    assert_eq!(
        resolve_whisper_path("C:\\whisper", PathKind::Directory, Platform::Windows, &probes),
        Err(ResolveError::WhisperNotFound { input: "C:\\whisper".to_string() })
    );
}

#[test]
fn missing_binary_is_reported_with_the_configured_path() {
    let none: Vec<FileProbe> = Vec::new();
    let in_directory =
        resolve_whisper_path("/opt/empty", PathKind::Directory, Platform::Linux, &none);
    assert_eq!(in_directory, Err(ResolveError::WhisperNotFound { input: "/opt/empty".to_string() }));
    assert_eq!(
        in_directory.unwrap_err().message(),
        "Whisper binary not found. Provide the whisper binary path or folder containing it. Got: /opt/empty"
    );
    let probes = vec![probe("whisper-cli", true)];
    assert_eq!(
        resolve_whisper_path("/nowhere", PathKind::Other, Platform::Linux, &probes),
        Err(ResolveError::WhisperNotFound { input: "/nowhere".to_string() })
    );
}

#[test]
fn empty_whisper_path_is_not_configured() {
    let probes = vec![probe("whisper-cli", true)];
    let result = resolve_whisper_path("", PathKind::Directory, Platform::Linux, &probes);
    assert_eq!(result, Err(ResolveError::WhisperPathNotConfigured));
    assert_eq!(result.unwrap_err().message(), "Whisper path not configured");
}

#[test]
fn probes_of_other_names_are_ignored() {
    let probes = vec![probe("whisper-cli.exe", true), probe("Whisper", true), probe("main ", true)];
    assert_eq!(
        resolve_whisper_path("/opt/whisper", PathKind::Directory, Platform::Linux, &probes),
        Err(ResolveError::WhisperNotFound { input: "/opt/whisper".to_string() })
    );
}

#[test]
fn largest_model_is_the_fallback_without_a_preferred_name() {
    let entries = vec![model("ggml-large-v3.bin", 10 * MB), model("ggml-tiny.bin", 5 * MB)];
    assert_eq!(
        resolve_model_path("/models", PathKind::Directory, &entries),
        Ok("/models/ggml-large-v3.bin".to_string())
    );
    let entries = vec![model("ggml-tiny.bin", 5 * MB), model("ggml-large-v3.bin", 10 * MB)];
    assert_eq!(
        resolve_model_path("/models", PathKind::Directory, &entries),
        Ok("/models/ggml-large-v3.bin".to_string())
    );
}

#[test]
fn preferred_name_beats_size() {
    let entries = vec![model("ggml-base.en.bin", 10 * MB), model("ggml-small.en.bin", 5 * MB)];
    assert_eq!(
        resolve_model_path_with_selection("/models", "", &directory_probe(entries)),
        Ok("/models/ggml-small.en.bin".to_string())
    );
    let entries = vec![
        model("ggml-huge.bin", 100 * MB),
        model("ggml-base.en.bin", 10 * MB),
        model("ggml-medium.bin", 1),
    ];
    assert_eq!(
        resolve_model_path("/models", PathKind::Directory, &entries),
        Ok("/models/ggml-medium.bin".to_string())
    );
}

#[test]
fn preferred_names_come_in_their_order() {
    assert_eq!(
        preferred_models(),
        vec![
            "ggml-medium.en-q8_0.bin",
            "ggml-medium.en.bin",
            "ggml-medium.en-q5_0.bin",
            "ggml-medium-q8_0.bin",
            "ggml-medium.bin",
            "ggml-small.en-q8_0.bin",
            "ggml-small.en.bin",
            "ggml-base.en.bin",
        ]
    );
}

#[test]
fn preferred_names_match_without_regard_to_case() {
    let entries = vec![model("other.bin", 9 * MB), model("GGML-Base.EN.bin", 1)];
    assert_eq!(
        resolve_model_path("/models", PathKind::Directory, &entries),
        Ok("/models/GGML-Base.EN.bin".to_string())
    );
}

#[test]
fn only_files_with_the_model_extension_count() {
    assert!(is_model_name("a.bin"));
    assert!(is_model_name("ggml-base.en.bin"));
    assert!(is_model_name("..bin"));
    assert!(!is_model_name(".bin"));
    assert!(!is_model_name("bin"));
    assert!(!is_model_name("model.BIN"));
    assert!(!is_model_name("model.bin.txt"));
    assert!(!is_model_name("modelbin"));
    assert!(!is_model_name(""));
    let entries = vec![model("notes.txt", 100 * MB), model("ggml-base.en.BIN", 50 * MB), model("small.bin", 1)];
    assert_eq!(
        resolve_model_path("/models", PathKind::Directory, &entries),
        Ok("/models/small.bin".to_string())
    );
}

#[test]
fn of_equally_large_models_the_last_is_taken() {
    let entries = vec![model("a.bin", 7), model("b.bin", 7), model("c.bin", 3)];
    assert_eq!(
        resolve_model_path("/models", PathKind::Directory, &entries),
        Ok("/models/b.bin".to_string())
    );
}

#[test]
fn model_file_is_taken_as_it_is() {
    let entries = vec![model("ggml-base.en.bin", 1)];
    assert_eq!(
        resolve_model_path("/models/custom.gguf", PathKind::File, &entries),
        Ok("/models/custom.gguf".to_string())
    );
}

#[test]
fn model_directory_without_models_is_reported_with_the_path() {
    let entries = vec![model("readme.md", 1)];
    let result = resolve_model_path("/models", PathKind::Directory, &entries);
    assert_eq!(result, Err(ResolveError::ModelNotFound { input: "/models".to_string() }));
    assert_eq!(
        result.unwrap_err().message(),
        "Model not found. Provide a .bin file or a folder containing ggml-*.bin models. Got: /models"
    );
}

#[test]
fn entries_are_ignored_where_the_path_is_no_directory() {
    let entries = vec![model("ggml-base.en.bin", 1)];
    assert_eq!(
        resolve_model_path("/gone", PathKind::Other, &entries),
        Err(ResolveError::ModelNotFound { input: "/gone".to_string() })
    );
}

fn nothing_at_the_path(entries: Vec<ModelFile>) -> ModelProbe {
    ModelProbe {
        selection_is_file: false,
        base_kind: PathKind::Other,
        selected_path: String::new(),
        selected_is_file: false,
        entries,
    }
}

#[test]
fn empty_model_path_is_not_configured() {
    let probe = nothing_at_the_path(vec![model("ggml-base.en.bin", 1)]);
    for selection in ["", "  ", "ggml-base.en.bin"] {
        let result = resolve_model_path_with_selection("  \t", selection, &probe);
        assert_eq!(result, Err(ResolveError::ModelPathNotConfigured));
        assert_eq!(result.unwrap_err().message(), "Model path not configured");
    }
    let entries = vec![model("ggml-base.en.bin", 1)];
    for kind in [PathKind::File, PathKind::Directory, PathKind::Other] {
        assert_eq!(resolve_model_path("", kind, &entries), Err(ResolveError::ModelPathNotConfigured));
    }
}

#[test]
fn selection_that_is_a_file_wins_over_a_blank_model_path() {
    let mut probe = nothing_at_the_path(Vec::new());
    probe.selection_is_file = true;
    for base in ["", "   ", "/gone"] {
        assert_eq!(
            resolve_model_path_with_selection(base, " /elsewhere/custom.bin\n", &probe),
            Ok("/elsewhere/custom.bin".to_string())
        );
    }
}

#[test]
fn entries_that_are_no_regular_files_are_no_models() {
    let mut folder = model("ggml-base.en.bin", 100 * MB);
    folder.is_file = false;
    let mut other_folder = model("huge.bin", 500 * MB);
    other_folder.is_file = false;
    let entries = vec![folder, other_folder, model("tiny.bin", 1)];
    assert_eq!(
        resolve_model_path("/models", PathKind::Directory, &entries),
        Ok("/models/tiny.bin".to_string())
    );
    let mut only_folder = model("ggml-base.en.bin", 1);
    only_folder.is_file = false;
    assert_eq!(
        resolve_model_path("/models", PathKind::Directory, &vec![only_folder]),
        Err(ResolveError::ModelNotFound { input: "/models".to_string() })
    );
}

#[test]
fn blank_selection_is_the_same_as_resolving_the_path() {
    let entries = || vec![model("b.bin", 2), model("ggml-small.en.bin", 1)];
    for kind in [PathKind::File, PathKind::Directory, PathKind::Other] {
        let probe = ModelProbe {
            selection_is_file: true,
            base_kind: kind,
            selected_path: "/models/".to_string(),
            selected_is_file: true,
            entries: entries(),
        };
        assert_eq!(
            resolve_model_path_with_selection(" /models ", " \t", &probe),
            resolve_model_path("/models", kind, &entries())
        );
    }
}

#[test]
fn selection_that_is_a_file_overrides_everything() {
    let mut probe = directory_probe(vec![model("ggml-base.en.bin", 1)]);
    probe.selection_is_file = true;
    probe.selected_path = "/models//elsewhere/custom.bin".to_string();
    probe.selected_is_file = true;
    assert_eq!(
        resolve_model_path_with_selection("/models", "  /elsewhere/custom.bin ", &probe),
        Ok("/elsewhere/custom.bin".to_string())
    );
}

#[test]
fn selection_inside_the_model_directory_is_joined() {
    let mut probe = directory_probe(vec![model("ggml-base.en.bin", 9), model("tiny.bin", 1)]);
    probe.selected_path = "/models/tiny.bin".to_string();
    probe.selected_is_file = true;
    assert_eq!(
        resolve_model_path_with_selection(" /models ", "tiny.bin", &probe),
        Ok("/models/tiny.bin".to_string())
    );
}

#[test]
fn missing_selection_fails_instead_of_falling_back() {
    let mut probe = directory_probe(vec![model("ggml-base.en.bin", 9)]);
    probe.selected_path = "/models/absent.bin".to_string();
    let result = resolve_model_path_with_selection("/models", "absent.bin", &probe);
    assert_eq!(
        result,
        Err(ResolveError::SelectedModelNotFound { candidate: "/models/absent.bin".to_string() })
    );
    assert_eq!(result.unwrap_err().message(), "Selected model not found: /models/absent.bin");
}

#[test]
fn selection_is_ignored_where_the_model_path_is_a_file() {
    let probe = ModelProbe {
        selection_is_file: false,
        base_kind: PathKind::File,
        selected_path: "/models/base.bin/absent.bin".to_string(),
        selected_is_file: false,
        entries: Vec::new(),
    };
    assert_eq!(
        resolve_model_path_with_selection("/models/base.bin", "absent.bin", &probe),
        Ok("/models/base.bin".to_string())
    );
}

#[test]
fn blank_selection_resolves_the_directory() {
    let probe = directory_probe(vec![model("ggml-base.en.bin", 9)]);
    assert_eq!(
        resolve_model_path_with_selection("/models", "   ", &probe),
        Ok("/models/ggml-base.en.bin".to_string())
    );
}

#[test]
fn local_models_are_listed_in_ascending_order() {
    let entries: Vec<String> = ["b.bin", "notes.txt", "a.bin", "B.bin", "ab.bin", "a.bin", ".bin"]
        .iter()
        .map(|s| s.to_string())
        .collect();
    assert_eq!(
        list_local_models(" /models ", PathKind::Directory, "models", &entries),
        vec!["B.bin", "a.bin", "a.bin", "ab.bin", "b.bin"]
    );
}

#[test]
fn local_models_of_a_file_are_its_name() {
    let entries = vec!["a.bin".to_string()];
    assert_eq!(
        list_local_models("/models/custom.gguf", PathKind::File, "custom.gguf", &entries),
        vec!["custom.gguf"]
    );
    assert_eq!(list_local_models("/", PathKind::File, "", &entries), Vec::<String>::new());
}

#[test]
fn local_models_of_nothing_are_none() {
    let entries = vec!["a.bin".to_string()];
    assert_eq!(list_local_models("  ", PathKind::Directory, "x", &entries), Vec::<String>::new());
    assert_eq!(list_local_models("/gone", PathKind::Other, "gone", &entries), Vec::<String>::new());
}

#[test]
fn text_order_is_by_character_then_by_length() {
    assert!(text_precedes("", ""));
    assert!(text_precedes("", "a"));
    assert!(!text_precedes("a", ""));
    assert!(text_precedes("a", "a"));
    assert!(text_precedes("a", "ab"));
    assert!(!text_precedes("ab", "a"));
    assert!(text_precedes("Z", "a"));
    assert!(!text_precedes("b", "a"));
    assert!(text_precedes("a\u{e9}", "a\u{20ac}"));
    let mut expected = vec!["b", "a", "", "\u{e9}", "ab", "B"];
    expected.sort();
    for pair in expected.windows(2) {
        assert!(text_precedes(pair[0], pair[1]));
    }
}
