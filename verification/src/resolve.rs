//! From a configured path to the speech-recognition binary.
//!
//! The rules are decided here; looking at the file system is the caller's
//! part. The caller says what stands at the configured path and at the places
//! the rules ask about, and gets back the path to use or the reason why there
//! is none.

use vstd::prelude::*;
use vstd::string::StringExecFns;
use crate::text::{same_text, views};

verus! {

/// What stands at a path.
#[derive(Clone, Copy, Debug, PartialEq, Eq, Structural)]
pub enum PathKind {
    /// A regular file.
    File,
    /// A directory.
    Directory,
    /// Nothing, or something that is neither.
    Other,
}

/// The operating system, as far as the names of binaries depend on it.
#[derive(Clone, Copy, Debug, PartialEq, Eq, Structural)]
pub enum Platform {
    Windows,
    MacOs,
    Linux,
    Other,
}

/// One place that was looked at: a name inside the configured directory, the
/// path of that name, and whether a regular file stands there.
#[derive(Debug, PartialEq, Eq)]
pub struct FileProbe {
    pub name: String,
    pub path: String,
    pub is_file: bool,
}

/// The characters of a `FileProbe`.
pub struct FileProbeView {
    pub name: Seq<char>,
    pub path: Seq<char>,
    pub is_file: bool,
}

impl View for FileProbe {
    type V = FileProbeView;

    open spec fn view(&self) -> FileProbeView {
        FileProbeView { name: self.name@, path: self.path@, is_file: self.is_file }
    }
}

/// The views of a list of probes.
pub open spec fn probe_views(probes: Seq<FileProbe>) -> Seq<FileProbeView> {
    probes.map_values(|p: FileProbe| p@)
}

/// Why no path was found.
#[derive(Debug, PartialEq, Eq)]
pub enum ResolveError {
    /// The path of the binary is empty.
    WhisperPathNotConfigured,
    /// The path of the binary is no file, and no directory that holds one of
    /// the expected names.
    WhisperNotFound { input: String },
    /// The path of the models is empty.
    ModelPathNotConfigured,
    /// A model was selected by name, and the model directory does not hold it.
    SelectedModelNotFound { candidate: String },
    /// The path of the models is no file, and no directory with a model.
    ModelNotFound { input: String },
}

/// The characters of a `ResolveError`.
pub enum ResolveErrorView {
    WhisperPathNotConfigured,
    WhisperNotFound { input: Seq<char> },
    ModelPathNotConfigured,
    SelectedModelNotFound { candidate: Seq<char> },
    ModelNotFound { input: Seq<char> },
}

impl View for ResolveError {
    type V = ResolveErrorView;

    open spec fn view(&self) -> ResolveErrorView {
        match self {
            ResolveError::WhisperPathNotConfigured => ResolveErrorView::WhisperPathNotConfigured,
            ResolveError::WhisperNotFound { input } => ResolveErrorView::WhisperNotFound {
                input: input@,
            },
            ResolveError::ModelPathNotConfigured => ResolveErrorView::ModelPathNotConfigured,
            ResolveError::SelectedModelNotFound { candidate } => {
                ResolveErrorView::SelectedModelNotFound { candidate: candidate@ }
            },
            ResolveError::ModelNotFound { input } => ResolveErrorView::ModelNotFound {
                input: input@,
            },
        }
    }
}

/// The view of a resolved path or of the reason why there is none.
pub open spec fn resolution_of(result: Result<String, ResolveError>) -> Result<
    Seq<char>,
    ResolveErrorView,
> {
    match result {
        Ok(path) => Ok(path@),
        Err(error) => Err(error@),
    }
}

impl ResolveErrorView {
    /// The message for the user. It names the path that was configured, or
    /// the file that was looked for.
    pub open spec fn message(self) -> Seq<char> {
        match self {
            ResolveErrorView::WhisperPathNotConfigured => "Whisper path not configured"@,
            ResolveErrorView::WhisperNotFound { input } => {
                "Whisper binary not found. Provide the whisper binary path or folder containing it. Got: "@
                    + input
            },
            ResolveErrorView::ModelPathNotConfigured => "Model path not configured"@,
            ResolveErrorView::SelectedModelNotFound { candidate } => {
                "Selected model not found: "@ + candidate
            },
            ResolveErrorView::ModelNotFound { input } => {
                "Model not found. Provide a .bin file or a folder containing ggml-*.bin models. Got: "@
                    + input
            },
        }
    }
}

impl ResolveError {
    /// The message for the user.
    pub fn message(&self) -> (r: String)
        ensures
            r@ == self@.message(),
    {
        match self {
            ResolveError::WhisperPathNotConfigured => "Whisper path not configured".to_owned(),
            ResolveError::WhisperNotFound { input } => {
                let mut text =
                    "Whisper binary not found. Provide the whisper binary path or folder containing it. Got: ".to_owned();
                text.append(input.as_str());
                text
            },
            ResolveError::ModelPathNotConfigured => "Model path not configured".to_owned(),
            ResolveError::SelectedModelNotFound { candidate } => {
                let mut text = "Selected model not found: ".to_owned();
                text.append(candidate.as_str());
                text
            },
            ResolveError::ModelNotFound { input } => {
                let mut text =
                    "Model not found. Provide a .bin file or a folder containing ggml-*.bin models. Got: ".to_owned();
                text.append(input.as_str());
                text
            },
        }
    }
}

/// The names under which the binary is looked for in a directory, the
/// preferred one first.
pub open spec fn whisper_candidate_names(platform: Platform) -> Seq<Seq<char>> {
    match platform {
        Platform::Windows => seq!["whisper-cli.exe"@, "main.exe"@, "whisper.exe"@],
        _ => seq!["whisper-cli"@, "whisper"@, "main"@],
    }
}

/// The names under which the binary is looked for in a directory, the
/// preferred one first.
pub fn whisper_candidates(platform: Platform) -> (names: Vec<String>)
    ensures
        views(names@) == whisper_candidate_names(platform),
{
    let mut names: Vec<String> = Vec::new();
    match platform {
        Platform::Windows => {
            names.push("whisper-cli.exe".to_owned());
            names.push("main.exe".to_owned());
            names.push("whisper.exe".to_owned());
        },
        _ => {
            names.push("whisper-cli".to_owned());
            names.push("whisper".to_owned());
            names.push("main".to_owned());
        },
    }
    proof {
        assert(views(names@) =~= whisper_candidate_names(platform));
    }
    names
}

/// The path of the first probe of `name` at which a file stands.
pub open spec fn probed_file(probes: Seq<FileProbeView>, name: Seq<char>) -> Option<Seq<char>>
    decreases probes.len(),
{
    if probes.len() == 0 {
        None
    } else if probes[0].name == name && probes[0].is_file {
        Some(probes[0].path)
    } else {
        probed_file(probes.drop_first(), name)
    }
}

/// The path of the first of `names` at which a file stands.
pub open spec fn first_probed(names: Seq<Seq<char>>, probes: Seq<FileProbeView>) -> Option<
    Seq<char>,
>
    decreases names.len(),
{
    if names.len() == 0 {
        None
    } else {
        match probed_file(probes, names[0]) {
            Some(path) => Some(path),
            None => first_probed(names.drop_first(), probes),
        }
    }
}

/// The binary to run. A configured file is taken as it is; in a configured
/// directory the first candidate name at which a file stands is taken.
pub open spec fn whisper_resolution(
    input: Seq<char>,
    kind: PathKind,
    platform: Platform,
    probes: Seq<FileProbeView>,
) -> Result<Seq<char>, ResolveErrorView> {
    if input.len() == 0 {
        Err(ResolveErrorView::WhisperPathNotConfigured)
    } else if kind == PathKind::File {
        Ok(input)
    } else if kind == PathKind::Directory && first_probed(
        whisper_candidate_names(platform),
        probes,
    ) is Some {
        Ok(first_probed(whisper_candidate_names(platform), probes)->Some_0)
    } else {
        Err(ResolveErrorView::WhisperNotFound { input })
    }
}

/// Probes at the front that are no file of that name do not change which
/// file is found.
proof fn lemma_probed_file_skip(probes: Seq<FileProbeView>, name: Seq<char>, n: int)
    requires
        0 <= n <= probes.len(),
        forall|i: int| 0 <= i < n ==> !(probes[i].name == name && probes[i].is_file),
    ensures
        probed_file(probes, name) == probed_file(probes.skip(n), name),
    decreases n,
{
    if n == 0 {
        assert(probes.skip(0) =~= probes);
    } else {
        assert(!(probes[0].name == name && probes[0].is_file));
        let rest = probes.drop_first();
        assert forall|i: int| 0 <= i < n - 1 implies !(rest[i].name == name && rest[i].is_file) by {
            assert(rest[i] == probes[i + 1]);
        }
        lemma_probed_file_skip(rest, name, n - 1);
        assert(rest.skip(n - 1) =~= probes.skip(n));
    }
}

/// Names at the front under which no file stands do not change which file
/// is found first.
proof fn lemma_first_probed_skip(names: Seq<Seq<char>>, probes: Seq<FileProbeView>, n: int)
    requires
        0 <= n <= names.len(),
        forall|i: int| 0 <= i < n ==> probed_file(probes, #[trigger] names[i]) is None,
    ensures
        first_probed(names, probes) == first_probed(names.skip(n), probes),
    decreases n,
{
    if n == 0 {
        assert(names.skip(0) =~= names);
    } else {
        assert(probed_file(probes, names[0]) is None);
        let rest = names.drop_first();
        assert forall|i: int| 0 <= i < n - 1 implies probed_file(probes, #[trigger] rest[i])
            is None by {
            assert(rest[i] == names[i + 1]);
        }
        lemma_first_probed_skip(rest, probes, n - 1);
        assert(rest.skip(n - 1) =~= names.skip(n));
    }
}

/// The path of the first probe of `name` at which a file stands.
fn find_probed(probes: &Vec<FileProbe>, name: &str) -> (found: Option<usize>)
    ensures
        match found {
            Some(at) => at < probes@.len() && probed_file(probe_views(probes@), name@) == Some(
                probes@[at as int].path@,
            ),
            None => probed_file(probe_views(probes@), name@) is None,
        },
{
    let ghost all = probe_views(probes@);
    let mut i: usize = 0;
    while i < probes.len()
        invariant
            i <= probes@.len(),
            all == probe_views(probes@),
            forall|j: int| 0 <= j < i ==> !(all[j].name == name@ && all[j].is_file),
        decreases probes@.len() - i,
    {
        if probes[i].is_file && same_text(probes[i].name.as_str(), name) {
            proof {
                lemma_probed_file_skip(all, name@, i as int);
                assert(all.skip(i as int)[0] == all[i as int]);
            }
            return Some(i);
        }
        i += 1;
    }
    proof {
        lemma_probed_file_skip(all, name@, i as int);
    }
    None
}

/// Resolves the configured path of the speech-recognition binary. `kind` says
/// what stands at `input`; `probes` say, for the candidate names of
/// `platform` inside `input`, where a file stands.
pub fn resolve_whisper_path(
    input: &str,
    kind: PathKind,
    platform: Platform,
    probes: &Vec<FileProbe>,
) -> (result: Result<String, ResolveError>)
    ensures
        resolution_of(result) == whisper_resolution(input@, kind, platform, probe_views(probes@)),
{
    if input.is_empty() {
        return Err(ResolveError::WhisperPathNotConfigured);
    }
    if kind == PathKind::File {
        return Ok(input.to_owned());
    }
    if kind == PathKind::Directory {
        let names = whisper_candidates(platform);
        let ghost wanted = whisper_candidate_names(platform);
        let mut i: usize = 0;
        while i < names.len()
            invariant
                i <= names@.len(),
                input@.len() > 0,
                kind == PathKind::Directory,
                wanted == whisper_candidate_names(platform),
                views(names@) == wanted,
                forall|j: int|
                    0 <= j < i ==> probed_file(probe_views(probes@), #[trigger] wanted[j]) is None,
            decreases names@.len() - i,
        {
            assert(wanted[i as int] == names@[i as int]@);
            match find_probed(probes, names[i].as_str()) {
                Some(at) => {
                    let path = probes[at].path.clone();
                    proof {
                        let all = probe_views(probes@);
                        lemma_first_probed_skip(wanted, all, i as int);
                        assert(wanted.skip(i as int)[0] == wanted[i as int]);
                        assert(probed_file(all, wanted[i as int]) == Some(path@));
                        assert(first_probed(wanted.skip(i as int), all) == Some(path@));
                        assert(first_probed(wanted, all) == Some(path@));
                    }
                    return Ok(path);
                },
                None => {},
            }
            i += 1;
        }
        proof {
            lemma_first_probed_skip(wanted, probe_views(probes@), i as int);
        }
    }
    Err(ResolveError::WhisperNotFound { input: input.to_owned() })
}

/// `suffix` is how `text` ends.
pub open spec fn ends_with(text: Seq<char>, suffix: Seq<char>) -> bool {
    suffix.len() <= text.len() && text.skip(text.len() - suffix.len()) == suffix
}

/// A binary that is not found is reported with the path that was configured:
/// the message ends with it.
pub proof fn whisper_failure_names_input(
    input: Seq<char>,
    kind: PathKind,
    platform: Platform,
    probes: Seq<FileProbeView>,
)
    ensures
        whisper_resolution(input, kind, platform, probes) matches Err(error) ==> ends_with(
            error.message(),
            input,
        ),
{
    if whisper_resolution(input, kind, platform, probes) is Err {
        let error = whisper_resolution(input, kind, platform, probes)->Err_0;
        if input.len() == 0 {
            assert(error.message().skip(error.message().len() - 0) =~= input);
        } else {
            let prefix =
                "Whisper binary not found. Provide the whisper binary path or folder containing it. Got: "@;
            assert((prefix + input).skip(prefix.len() as int) =~= input);
        }
    }
}

/// A file that is found for a name is one of the probes at which a file
/// stands.
proof fn lemma_probed_file_is_probed(probes: Seq<FileProbeView>, name: Seq<char>)
    ensures
        probed_file(probes, name) matches Some(path) ==> exists|i: int|
            0 <= i < probes.len() && probes[i].is_file && probes[i].path == path,
    decreases probes.len(),
{
    if probes.len() > 0 && !(probes[0].name == name && probes[0].is_file) {
        let rest = probes.drop_first();
        lemma_probed_file_is_probed(rest, name);
        if probed_file(rest, name) is Some {
            let path = probed_file(rest, name)->Some_0;
            let i = choose|i: int| 0 <= i < rest.len() && rest[i].is_file && rest[i].path == path;
            assert(probes[i + 1] == rest[i]);
        }
    }
}

/// The file that is found first is one of the probes at which a file stands.
proof fn lemma_first_probed_is_probed(names: Seq<Seq<char>>, probes: Seq<FileProbeView>)
    ensures
        first_probed(names, probes) matches Some(path) ==> exists|i: int|
            0 <= i < probes.len() && probes[i].is_file && probes[i].path == path,
    decreases names.len(),
{
    if names.len() > 0 {
        lemma_probed_file_is_probed(probes, names[0]);
        lemma_first_probed_is_probed(names.drop_first(), probes);
    }
}

/// A binary that is resolved is a regular file, as far as the caller saw the
/// file system: the configured path where a file stands there, else the path
/// of a probe at which a file stands.
pub proof fn resolved_binary_is_a_regular_file(
    input: Seq<char>,
    kind: PathKind,
    platform: Platform,
    probes: Seq<FileProbeView>,
)
    ensures
        whisper_resolution(input, kind, platform, probes) matches Ok(path) ==> (path == input
            && kind == PathKind::File) || exists|i: int|
            0 <= i < probes.len() && probes[i].is_file && probes[i].path == path,
{
    lemma_first_probed_is_probed(whisper_candidate_names(platform), probes);
}

} // verus!
