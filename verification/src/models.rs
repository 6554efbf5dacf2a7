//! From a configured path and a selection to the model file to load, and
//! the list of models that a path offers.
//!
//! As for the binary, the caller looks at the file system and the rules are
//! decided here.

use vstd::prelude::*;
use crate::resolve::{ends_with, resolution_of, PathKind, ResolveError, ResolveErrorView};
use crate::text::{
    ascii_lowercase, lemma_text_le_total, lemma_text_le_transitive, names_ascend, same_text,
    text_le, text_precedes, to_ascii_lowercase, to_chars, trim, trimmed, views,
};

verus! {

/// An entry of a directory that was listed: its path, its name, whether it
/// is a regular file, and its size in bytes.
#[derive(Debug, PartialEq, Eq)]
pub struct ModelFile {
    pub path: String,
    pub file_name: String,
    /// A regular file stands at `path`.
    pub is_file: bool,
    pub size: u64,
}

/// The characters of a `ModelFile`.
pub struct ModelFileView {
    pub path: Seq<char>,
    pub file_name: Seq<char>,
    pub is_file: bool,
    pub size: u64,
}

impl View for ModelFile {
    type V = ModelFileView;

    open spec fn view(&self) -> ModelFileView {
        ModelFileView {
            path: self.path@,
            file_name: self.file_name@,
            is_file: self.is_file,
            size: self.size,
        }
    }
}

/// The views of a directory listing.
pub open spec fn model_views(entries: Seq<ModelFile>) -> Seq<ModelFileView> {
    entries.map_values(|f: ModelFile| f@)
}

/// Whether a file of that name counts as a model: the name ends in `.bin`
/// and has something before it.
pub open spec fn has_model_extension(name: Seq<char>) -> bool {
    let n = name.len() as int;
    n > 4 && name[n - 4] == '.' && name[n - 3] == 'b' && name[n - 2] == 'i' && name[n - 1] == 'n'
}

/// Whether a file of that name counts as a model.
pub fn is_model_name(name: &str) -> (r: bool)
    ensures
        r == has_model_extension(name@),
{
    let chars = to_chars(name);
    let n = chars.len();
    n > 4 && chars[n - 4] == '.' && chars[n - 3] == 'b' && chars[n - 2] == 'i' && chars[n - 1]
        == 'n'
}

/// The model names that are preferred over all others, the best first.
pub open spec fn preferred_model_names() -> Seq<Seq<char>> {
    seq![
        "ggml-medium.en-q8_0.bin"@,
        "ggml-medium.en.bin"@,
        "ggml-medium.en-q5_0.bin"@,
        "ggml-medium-q8_0.bin"@,
        "ggml-medium.bin"@,
        "ggml-small.en-q8_0.bin"@,
        "ggml-small.en.bin"@,
        "ggml-base.en.bin"@,
    ]
}

/// The model names that are preferred over all others, the best first.
pub fn preferred_models() -> (names: Vec<String>)
    ensures
        views(names@) == preferred_model_names(),
{
    let mut names: Vec<String> = Vec::new();
    names.push("ggml-medium.en-q8_0.bin".to_owned());
    names.push("ggml-medium.en.bin".to_owned());
    names.push("ggml-medium.en-q5_0.bin".to_owned());
    names.push("ggml-medium-q8_0.bin".to_owned());
    names.push("ggml-medium.bin".to_owned());
    names.push("ggml-small.en-q8_0.bin".to_owned());
    names.push("ggml-small.en.bin".to_owned());
    names.push("ggml-base.en.bin".to_owned());
    proof {
        assert(views(names@) =~= preferred_model_names());
    }
    names
}

/// Whether `file` is a model: a regular file whose name has the model
/// extension.
pub open spec fn is_model(file: ModelFileView) -> bool {
    file.is_file && has_model_extension(file.file_name)
}

/// Whether `file` is a model called `name`, capital letters aside.
pub open spec fn is_model_named(file: ModelFileView, name: Seq<char>) -> bool {
    is_model(file) && ascii_lowercase(file.file_name) == ascii_lowercase(name)
}

/// The path of the first model in `entries` that is called `name`.
pub open spec fn named_model(entries: Seq<ModelFileView>, name: Seq<char>) -> Option<Seq<char>>
    decreases entries.len(),
{
    if entries.len() == 0 {
        None
    } else if is_model_named(entries[0], name) {
        Some(entries[0].path)
    } else {
        named_model(entries.drop_first(), name)
    }
}

/// The path of the model with the first of `names` that any model has.
pub open spec fn preferred_model(entries: Seq<ModelFileView>, names: Seq<Seq<char>>) -> Option<
    Seq<char>,
>
    decreases names.len(),
{
    if names.len() == 0 {
        None
    } else {
        match named_model(entries, names[0]) {
            Some(path) => Some(path),
            None => preferred_model(entries, names.drop_first()),
        }
    }
}

/// The largest model in `entries`; of several of that size, the last.
pub open spec fn largest_model(entries: Seq<ModelFileView>) -> Option<ModelFileView>
    decreases entries.len(),
{
    if entries.len() == 0 {
        None
    } else {
        let before = largest_model(entries.drop_last());
        let last = entries.last();
        if !is_model(last) {
            before
        } else if before is Some && before->Some_0.size > last.size {
            before
        } else {
            Some(last)
        }
    }
}

/// The model to load. An empty path names nothing. A configured file is
/// taken as it is. In a configured directory a model with a preferred name
/// is taken, by the order of the names; where there is none, the largest
/// model. Only regular files count as models.
pub open spec fn model_resolution(input: Seq<char>, kind: PathKind, entries: Seq<ModelFileView>)
    -> Result<Seq<char>, ResolveErrorView> {
    let listed = if kind == PathKind::Directory {
        entries
    } else {
        Seq::empty()
    };
    if input.len() == 0 {
        Err(ResolveErrorView::ModelPathNotConfigured)
    } else if kind == PathKind::File {
        Ok(input)
    } else if preferred_model(listed, preferred_model_names()) is Some {
        Ok(preferred_model(listed, preferred_model_names())->Some_0)
    } else if largest_model(listed) is Some {
        Ok(largest_model(listed)->Some_0.path)
    } else {
        Err(ResolveErrorView::ModelNotFound { input })
    }
}

/// Entries at the front that are no model of that name do not change which
/// model is found.
proof fn lemma_named_model_skip(entries: Seq<ModelFileView>, name: Seq<char>, n: int)
    requires
        0 <= n <= entries.len(),
        forall|i: int| 0 <= i < n ==> !is_model_named(#[trigger] entries[i], name),
    ensures
        named_model(entries, name) == named_model(entries.skip(n), name),
    decreases n,
{
    if n == 0 {
        assert(entries.skip(0) =~= entries);
    } else {
        assert(!is_model_named(entries[0], name));
        let rest = entries.drop_first();
        assert forall|i: int| 0 <= i < n - 1 implies !is_model_named(#[trigger] rest[i], name) by {
            assert(rest[i] == entries[i + 1]);
        }
        lemma_named_model_skip(rest, name, n - 1);
        assert(rest.skip(n - 1) =~= entries.skip(n));
    }
}

/// Names at the front that no model has do not change which model is
/// preferred.
proof fn lemma_preferred_model_skip(entries: Seq<ModelFileView>, names: Seq<Seq<char>>, n: int)
    requires
        0 <= n <= names.len(),
        forall|i: int| 0 <= i < n ==> named_model(entries, #[trigger] names[i]) is None,
    ensures
        preferred_model(entries, names) == preferred_model(entries, names.skip(n)),
    decreases n,
{
    if n == 0 {
        assert(names.skip(0) =~= names);
    } else {
        assert(named_model(entries, names[0]) is None);
        let rest = names.drop_first();
        assert forall|i: int| 0 <= i < n - 1 implies named_model(entries, #[trigger] rest[i])
            is None by {
            assert(rest[i] == names[i + 1]);
        }
        lemma_preferred_model_skip(entries, rest, n - 1);
        assert(rest.skip(n - 1) =~= names.skip(n));
    }
}

/// Where the first model called `name` stands in `entries`. `name` is in
/// small letters.
fn find_named_model(entries: &Vec<ModelFile>, name: &str) -> (found: Option<usize>)
    requires
        ascii_lowercase(name@) == name@,
    ensures
        match found {
            Some(at) => at < entries@.len() && named_model(model_views(entries@), name@) == Some(
                entries@[at as int].path@,
            ),
            None => named_model(model_views(entries@), name@) is None,
        },
{
    let ghost all = model_views(entries@);
    let mut i: usize = 0;
    while i < entries.len()
        invariant
            i <= entries@.len(),
            all == model_views(entries@),
            ascii_lowercase(name@) == name@,
            forall|j: int| 0 <= j < i ==> !is_model_named(#[trigger] all[j], name@),
        decreases entries@.len() - i,
    {
        if entries[i].is_file && is_model_name(entries[i].file_name.as_str()) {
            let lowered = to_ascii_lowercase(entries[i].file_name.as_str());
            if same_text(lowered.as_str(), name) {
                proof {
                    lemma_named_model_skip(all, name@, i as int);
                    assert(all.skip(i as int)[0] == all[i as int]);
                }
                return Some(i);
            }
        }
        i += 1;
    }
    proof {
        lemma_named_model_skip(all, name@, i as int);
    }
    None
}

/// Where the largest model stands in `entries`.
fn find_largest_model(entries: &Vec<ModelFile>) -> (found: Option<usize>)
    ensures
        match found {
            Some(at) => at < entries@.len() && largest_model(model_views(entries@)) == Some(
                entries@[at as int]@,
            ),
            None => largest_model(model_views(entries@)) is None,
        },
{
    let ghost all = model_views(entries@);
    let mut best: Option<usize> = None;
    let mut i: usize = 0;
    while i < entries.len()
        invariant
            i <= entries@.len(),
            all == model_views(entries@),
            match best {
                Some(at) => at < i && largest_model(all.take(i as int)) == Some(all[at as int]),
                None => largest_model(all.take(i as int)) is None,
            },
        decreases entries@.len() - i,
    {
        proof {
            assert(all.take(i + 1).drop_last() =~= all.take(i as int));
            assert(all.take(i + 1).last() == all[i as int]);
        }
        if entries[i].is_file && is_model_name(entries[i].file_name.as_str()) {
            let larger = match best {
                Some(at) => entries[at].size > entries[i].size,
                None => false,
            };
            if !larger {
                best = Some(i);
            }
        }
        i += 1;
    }
    proof {
        assert(all.take(i as int) =~= all);
    }
    best
}

/// Every preferred name is written in small letters.
proof fn lemma_preferred_names_are_lowercase()
    ensures
        forall|i: int|
            0 <= i < preferred_model_names().len() ==> ascii_lowercase(
                #[trigger] preferred_model_names()[i],
            ) == preferred_model_names()[i],
{
    reveal_strlit("ggml-medium.en-q8_0.bin");
    reveal_strlit("ggml-medium.en.bin");
    reveal_strlit("ggml-medium.en-q5_0.bin");
    reveal_strlit("ggml-medium-q8_0.bin");
    reveal_strlit("ggml-medium.bin");
    reveal_strlit("ggml-small.en-q8_0.bin");
    reveal_strlit("ggml-small.en.bin");
    reveal_strlit("ggml-base.en.bin");
    assert forall|i: int| 0 <= i < preferred_model_names().len() implies ascii_lowercase(
        #[trigger] preferred_model_names()[i],
    ) == preferred_model_names()[i] by {
        let name = preferred_model_names()[i];
        assert(ascii_lowercase(name) =~= name);
    }
}

/// Resolves a model path that names no selection. `kind` says what stands at
/// `input`; `entries` are the entries of the directory `input` followed by
/// those of its `models` directory. An empty path is not configured, whatever
/// the caller saw.
pub fn resolve_model_path(
    input: &str,
    kind: PathKind,
    entries: &Vec<ModelFile>,
) -> (result: Result<String, ResolveError>)
    ensures
        resolution_of(result) == model_resolution(input@, kind, model_views(entries@)),
{
    if input.is_empty() {
        return Err(ResolveError::ModelPathNotConfigured);
    }
    if kind == PathKind::File {
        return Ok(input.to_owned());
    }
    if kind == PathKind::Directory {
        let names = preferred_models();
        let ghost wanted = preferred_model_names();
        let ghost all = model_views(entries@);
        let mut i: usize = 0;
        while i < names.len()
            invariant
                i <= names@.len(),
                input@.len() > 0,
                kind == PathKind::Directory,
                wanted == preferred_model_names(),
                views(names@) == wanted,
                all == model_views(entries@),
                forall|j: int| 0 <= j < i ==> named_model(all, #[trigger] wanted[j]) is None,
            decreases names@.len() - i,
        {
            proof {
                assert(wanted[i as int] == names@[i as int]@);
                lemma_preferred_names_are_lowercase();
            }
            match find_named_model(entries, names[i].as_str()) {
                Some(at) => {
                    let path = entries[at].path.clone();
                    proof {
                        lemma_preferred_model_skip(all, wanted, i as int);
                        assert(wanted.skip(i as int)[0] == wanted[i as int]);
                        assert(preferred_model(all, wanted.skip(i as int)) == Some(path@));
                    }
                    return Ok(path);
                },
                None => {},
            }
            i += 1;
        }
        proof {
            lemma_preferred_model_skip(all, wanted, i as int);
        }
        match find_largest_model(entries) {
            Some(at) => {
                return Ok(entries[at].path.clone());
            },
            None => {},
        }
    } else {
        proof {
            lemma_no_preferred_model(Seq::<ModelFileView>::empty(), preferred_model_names());
        }
    }
    Err(ResolveError::ModelNotFound { input: input.to_owned() })
}

/// What the caller saw of the file system for a model path and a selection.
#[derive(Debug, PartialEq, Eq)]
pub struct ModelProbe {
    /// A regular file stands at the selection itself.
    pub selection_is_file: bool,
    /// What stands at the model path.
    pub base_kind: PathKind,
    /// The path of the selection inside the model path.
    pub selected_path: String,
    /// A regular file stands at `selected_path`.
    pub selected_is_file: bool,
    /// The entries of the model path followed by those of its `models`
    /// directory.
    pub entries: Vec<ModelFile>,
}

/// The characters of a `ModelProbe`.
pub struct ModelProbeView {
    pub selection_is_file: bool,
    pub base_kind: PathKind,
    pub selected_path: Seq<char>,
    pub selected_is_file: bool,
    pub entries: Seq<ModelFileView>,
}

impl View for ModelProbe {
    type V = ModelProbeView;

    open spec fn view(&self) -> ModelProbeView {
        ModelProbeView {
            selection_is_file: self.selection_is_file,
            base_kind: self.base_kind,
            selected_path: self.selected_path@,
            selected_is_file: self.selected_is_file,
            entries: model_views(self.entries@),
        }
    }
}

/// The model to load for a model path and a selection, both taken without
/// the whitespace around them. A selection that is a file wins, whatever the
/// model path. A selection inside a model directory must exist: nothing else
/// is taken in its place. In every other case the model path is resolved on
/// its own.
pub open spec fn selection_resolution(
    base_path: Seq<char>,
    selection: Seq<char>,
    probe: ModelProbeView,
) -> Result<Seq<char>, ResolveErrorView> {
    let base = trimmed(base_path);
    let selected = trimmed(selection);
    if selected.len() > 0 && probe.selection_is_file {
        Ok(selected)
    } else if selected.len() > 0 && probe.base_kind == PathKind::Directory {
        if probe.selected_is_file {
            Ok(probe.selected_path)
        } else {
            Err(ResolveErrorView::SelectedModelNotFound { candidate: probe.selected_path })
        }
    } else {
        model_resolution(base, probe.base_kind, probe.entries)
    }
}

/// Resolves the configured model path together with the name of a selected
/// model. `probe` says what stands at the places that the rules ask about,
/// for the two texts without the whitespace around them. A selection that is
/// a regular file is returned as it is, before the model path is looked at.
pub fn resolve_model_path_with_selection(
    base_path: &str,
    selection: &str,
    probe: &ModelProbe,
) -> (result: Result<String, ResolveError>)
    ensures
        resolution_of(result) == selection_resolution(base_path@, selection@, probe@),
{
    let base = trim(base_path);
    let selected = trim(selection);
    if !selected.as_str().is_empty() {
        if probe.selection_is_file {
            return Ok(selected);
        }
        if probe.base_kind == PathKind::Directory {
            if probe.selected_is_file {
                return Ok(probe.selected_path.clone());
            }
            return Err(
                ResolveError::SelectedModelNotFound { candidate: probe.selected_path.clone() },
            );
        }
    }
    resolve_model_path(base.as_str(), probe.base_kind, &probe.entries)
}

/// The largest model is a model of the listing, and no model of the listing
/// is larger.
pub proof fn largest_model_is_largest(entries: Seq<ModelFileView>)
    ensures
        largest_model(entries) is None <==> forall|i: int|
            0 <= i < entries.len() ==> !is_model(#[trigger] entries[i]),
        largest_model(entries) matches Some(best) ==> {
            &&& is_model(best)
            &&& exists|i: int| 0 <= i < entries.len() && entries[i] == best
            &&& forall|i: int|
                0 <= i < entries.len() && is_model(#[trigger] entries[i]) ==> entries[i].size
                    <= best.size
        },
    decreases entries.len(),
{
    if entries.len() > 0 {
        let rest = entries.drop_last();
        let last = entries.last();
        largest_model_is_largest(rest);
        assert forall|i: int| 0 <= i < rest.len() implies rest[i] == entries[i] by {}
        if largest_model(entries) is None {
            assert forall|i: int| 0 <= i < entries.len() implies !is_model(
                #[trigger] entries[i],
            ) by {
                if i < rest.len() {
                    assert(rest[i] == entries[i]);
                }
            }
        } else {
            let best = largest_model(entries)->Some_0;
            if best == last && !(largest_model(rest) == Some(best)) {
                assert(entries[entries.len() - 1] == best);
            } else {
                let i = choose|i: int| 0 <= i < rest.len() && rest[i] == best;
                assert(entries[i] == best);
            }
            assert forall|i: int| 0 <= i < entries.len() && is_model(
                #[trigger] entries[i],
            ) implies entries[i].size <= best.size by {
                if i < rest.len() {
                    assert(rest[i] == entries[i]);
                }
            }
            assert(entries[entries.len() - 1] == last);
        }
    }
}

/// No model under a preferred name: then none is preferred.
proof fn lemma_no_preferred_model(entries: Seq<ModelFileView>, names: Seq<Seq<char>>)
    requires
        forall|i: int, j: int|
            0 <= i < entries.len() && 0 <= j < names.len() ==> !is_model_named(
                #[trigger] entries[i],
                #[trigger] names[j],
            ),
    ensures
        preferred_model(entries, names) is None,
    decreases names.len(),
{
    if names.len() > 0 {
        lemma_named_model_skip(entries, names[0], entries.len() as int);
        let rest = names.drop_first();
        assert forall|i: int, j: int| 0 <= i < entries.len() && 0 <= j < rest.len() implies
            !is_model_named(#[trigger] entries[i], #[trigger] rest[j]) by {
            assert(rest[j] == names[j + 1]);
        }
        lemma_no_preferred_model(entries, rest);
    }
}

/// In a model directory that holds models, none of them under a preferred
/// name, the model that is resolved is a largest one.
pub proof fn fallback_is_the_largest_model(input: Seq<char>, entries: Seq<ModelFileView>)
    requires
        input.len() > 0,
        exists|i: int| 0 <= i < entries.len() && is_model(entries[i]),
        forall|i: int, j: int|
            0 <= i < entries.len() && 0 <= j < preferred_model_names().len() ==> !is_model_named(
                #[trigger] entries[i],
                #[trigger] preferred_model_names()[j],
            ),
    ensures
        exists|i: int|
            0 <= i < entries.len() && is_model(entries[i]) && model_resolution(
                input,
                PathKind::Directory,
                entries,
            ) == Ok::<Seq<char>, ResolveErrorView>(entries[i].path) && forall|j: int|
                0 <= j < entries.len() && is_model(#[trigger] entries[j]) ==> entries[j].size
                    <= entries[i].size,
{
    lemma_no_preferred_model(entries, preferred_model_names());
    largest_model_is_largest(entries);
    let best = largest_model(entries)->Some_0;
    let i = choose|i: int| 0 <= i < entries.len() && entries[i] == best;
    assert(is_model(entries[i]));
}

/// A model that is found by name is a model of the listing.
proof fn lemma_named_model_is_listed(entries: Seq<ModelFileView>, name: Seq<char>)
    ensures
        named_model(entries, name) matches Some(path) ==> exists|i: int|
            0 <= i < entries.len() && is_model(entries[i]) && entries[i].path == path,
    decreases entries.len(),
{
    if entries.len() > 0 && !is_model_named(entries[0], name) {
        let rest = entries.drop_first();
        lemma_named_model_is_listed(rest, name);
        if named_model(rest, name) is Some {
            let path = named_model(rest, name)->Some_0;
            let i = choose|i: int| 0 <= i < rest.len() && is_model(rest[i]) && rest[i].path == path;
            assert(entries[i + 1] == rest[i]);
        }
    }
}

/// A model that is preferred is a model of the listing.
proof fn lemma_preferred_model_is_listed(entries: Seq<ModelFileView>, names: Seq<Seq<char>>)
    ensures
        preferred_model(entries, names) matches Some(path) ==> exists|i: int|
            0 <= i < entries.len() && is_model(entries[i]) && entries[i].path == path,
    decreases names.len(),
{
    if names.len() > 0 {
        lemma_named_model_is_listed(entries, names[0]);
        lemma_preferred_model_is_listed(entries, names.drop_first());
    }
}

/// What the caller saw says that a regular file stands at `path`: it is the
/// selection, the selection inside the model path, the model path itself, or
/// an entry of the listing, each seen as a regular file.
pub open spec fn seen_as_file(
    path: Seq<char>,
    base_path: Seq<char>,
    selection: Seq<char>,
    probe: ModelProbeView,
) -> bool {
    ||| path == trimmed(selection) && probe.selection_is_file
    ||| path == probe.selected_path && probe.selected_is_file
    ||| path == trimmed(base_path) && probe.base_kind == PathKind::File
    ||| exists|i: int|
        0 <= i < probe.entries.len() && probe.entries[i].is_file && probe.entries[i].path == path
}

/// A model that is resolved is a regular file, as far as the caller saw the
/// file system: nothing else is ever returned.
pub proof fn resolved_model_is_a_regular_file(
    base_path: Seq<char>,
    selection: Seq<char>,
    probe: ModelProbeView,
)
    ensures
        selection_resolution(base_path, selection, probe) matches Ok(path) ==> seen_as_file(
            path,
            base_path,
            selection,
            probe,
        ),
{
    let listed = if probe.base_kind == PathKind::Directory {
        probe.entries
    } else {
        Seq::empty()
    };
    lemma_preferred_model_is_listed(listed, preferred_model_names());
    largest_model_is_largest(listed);
    if selection_resolution(base_path, selection, probe) is Ok {
        let path = selection_resolution(base_path, selection, probe)->Ok_0;
        if preferred_model(listed, preferred_model_names()) == Some(path) {
            let i = choose|i: int|
                0 <= i < listed.len() && is_model(listed[i]) && listed[i].path == path;
            assert(probe.entries[i].is_file && probe.entries[i].path == path);
        } else if largest_model(listed) is Some && largest_model(listed)->Some_0.path == path {
            let best = largest_model(listed)->Some_0;
            let i = choose|i: int| 0 <= i < listed.len() && listed[i] == best;
            assert(probe.entries[i].is_file && probe.entries[i].path == path);
        }
    }
}

/// Without a selection the model path is resolved on its own.
pub proof fn blank_selection_resolves_the_path(
    base_path: Seq<char>,
    selection: Seq<char>,
    probe: ModelProbeView,
)
    requires
        trimmed(selection).len() == 0,
    ensures
        selection_resolution(base_path, selection, probe) == model_resolution(
            trimmed(base_path),
            probe.base_kind,
            probe.entries,
        ),
{
}

/// A selection that is a regular file is returned as it is, whatever the
/// model path and whatever else was seen.
pub proof fn selected_file_wins(base_path: Seq<char>, selection: Seq<char>, probe: ModelProbeView)
    requires
        trimmed(selection).len() > 0,
        probe.selection_is_file,
    ensures
        selection_resolution(base_path, selection, probe) == Ok::<Seq<char>, ResolveErrorView>(
            trimmed(selection),
        ),
{
}

/// A model that is not found is reported with the path that was configured,
/// or with the selected file that is missing: the message ends with it.
pub proof fn model_failure_names_input(
    base_path: Seq<char>,
    selection: Seq<char>,
    probe: ModelProbeView,
)
    ensures
        selection_resolution(base_path, selection, probe) matches Err(error) ==> match error {
            ResolveErrorView::ModelPathNotConfigured => trimmed(base_path).len() == 0,
            ResolveErrorView::SelectedModelNotFound { candidate } => candidate
                == probe.selected_path && ends_with(error.message(), candidate),
            ResolveErrorView::ModelNotFound { input } => input == trimmed(base_path) && ends_with(
                error.message(),
                input,
            ),
            _ => false,
        },
{
    if selection_resolution(base_path, selection, probe) is Err {
        let error = selection_resolution(base_path, selection, probe)->Err_0;
        match error {
            ResolveErrorView::SelectedModelNotFound { candidate } => {
                let prefix = "Selected model not found: "@;
                assert((prefix + candidate).skip(prefix.len() as int) =~= candidate);
            },
            ResolveErrorView::ModelNotFound { input } => {
                let prefix =
                    "Model not found. Provide a .bin file or a folder containing ggml-*.bin models. Got: "@;
                assert((prefix + input).skip(prefix.len() as int) =~= input);
            },
            _ => {},
        }
    }
}

/// A selection that is given is honoured or refused, never replaced: where a
/// model is selected inside a model directory, the result is that file or a
/// failure, whatever else the directory holds.
pub proof fn selection_is_never_replaced(
    base_path: Seq<char>,
    selection: Seq<char>,
    probe: ModelProbeView,
)
    requires
        trimmed(selection).len() > 0,
        probe.base_kind == PathKind::Directory,
    ensures
        selection_resolution(base_path, selection, probe) == if probe.selection_is_file {
            Ok::<Seq<char>, ResolveErrorView>(trimmed(selection))
        } else if probe.selected_is_file {
            Ok::<Seq<char>, ResolveErrorView>(probe.selected_path)
        } else {
            Err::<Seq<char>, ResolveErrorView>(
                ResolveErrorView::SelectedModelNotFound { candidate: probe.selected_path },
            )
        },
{
}

/// The names among `entries` that count as models, in the order of the
/// listing.
pub open spec fn model_names(entries: Seq<Seq<char>>) -> Seq<Seq<char>>
    decreases entries.len(),
{
    if entries.len() == 0 {
        Seq::empty()
    } else if has_model_extension(entries.last()) {
        model_names(entries.drop_last()).push(entries.last())
    } else {
        model_names(entries.drop_last())
    }
}

/// What a model path offers for selection, given what stands at the path
/// without the whitespace around it: of a file its name, of a directory the
/// models in it, else nothing. This is what `list_local_models` holds
/// before it is put in ascending order.
pub open spec fn offered_models(
    model_dir: Seq<char>,
    kind: PathKind,
    file_name: Seq<char>,
    entries: Seq<Seq<char>>,
) -> Seq<Seq<char>> {
    if trimmed(model_dir).len() == 0 {
        Seq::empty()
    } else if kind == PathKind::File {
        if file_name.len() == 0 {
            Seq::empty()
        } else {
            seq![file_name]
        }
    } else if kind == PathKind::Directory {
        model_names(entries)
    } else {
        Seq::empty()
    }
}

/// Lists the models that a model path offers, in ascending order. `kind`
/// says what stands at `model_dir` without the whitespace around it,
/// `file_name` is the last part of that path, and `entries` are the names in
/// that directory.
pub fn list_local_models(model_dir: &str, kind: PathKind, file_name: &str, entries: &Vec<String>)
    -> (names: Vec<String>)
    ensures
        names_ascend(views(names@)),
        views(names@).to_multiset() == offered_models(
            model_dir@,
            kind,
            file_name@,
            views(entries@),
        ).to_multiset(),
{
    broadcast use vstd::seq_lib::group_to_multiset_ensures;

    let mut names: Vec<String> = Vec::new();
    let ghost all = views(entries@);
    if trim(model_dir).as_str().is_empty() {
        assert(views(names@) =~= Seq::<Seq<char>>::empty());
        return names;
    }
    if kind == PathKind::File {
        if !file_name.is_empty() {
            names.push(file_name.to_owned());
            assert(views(names@) =~= seq![file_name@]);
            proof {
                lemma_text_le_total(file_name@, file_name@);
            }
        } else {
            assert(views(names@) =~= Seq::<Seq<char>>::empty());
        }
        return names;
    }
    if kind != PathKind::Directory {
        assert(views(names@) =~= Seq::<Seq<char>>::empty());
        return names;
    }
    assert(views(names@) =~= Seq::<Seq<char>>::empty());
    let mut i: usize = 0;
    while i < entries.len()
        invariant
            i <= entries@.len(),
            all == views(entries@),
            names_ascend(views(names@)),
            views(names@).to_multiset() == model_names(all.take(i as int)).to_multiset(),
        decreases entries@.len() - i,
    {
        proof {
            assert(all.take(i + 1).drop_last() =~= all.take(i as int));
            assert(all.take(i + 1).last() == entries@[i as int]@);
        }
        if is_model_name(entries[i].as_str()) {
            let name = entries[i].clone();
            let mut at: usize = names.len();
            while at > 0 && !text_precedes(names[at - 1].as_str(), name.as_str())
                invariant
                    at <= names@.len(),
                    forall|j: int| at <= j < names@.len() ==> !text_le(
                        #[trigger] names@[j]@,
                        name@,
                    ),
                decreases at,
            {
                at -= 1;
            }
            proof {
                let before = views(names@);
                let after = before.insert(at as int, name@);
                assert(views(names@.insert(at as int, name)) =~= after);
                assert forall|p: int, q: int| 0 <= p <= q < after.len() implies text_le(
                    after[p],
                    after[q],
                ) by {
                    if p == q {
                        lemma_text_le_total(after[p], after[p]);
                    } else if q < at {
                        assert(after[p] == before[p] && after[q] == before[q]);
                    } else if q == at {
                        assert(after[p] == before[p]);
                        assert(before[at - 1] == names@[at - 1]@);
                        assert(text_le(before[p], before[at - 1]));
                        lemma_text_le_transitive(before[p], before[at - 1], name@);
                    } else if p < at {
                        assert(after[p] == before[p] && after[q] == before[q - 1]);
                    } else if p == at {
                        assert(after[q] == before[q - 1]);
                        assert(before[q - 1] == names@[q - 1]@);
                        lemma_text_le_total(before[q - 1], name@);
                    } else {
                        assert(after[p] == before[p - 1] && after[q] == before[q - 1]);
                    }
                }
                assert(model_names(all.take(i + 1)) == model_names(all.take(i as int)).push(
                    name@,
                ));
                vstd::seq_lib::to_multiset_insert(before, at as int, name@);
                vstd::seq_lib::to_multiset_build(model_names(all.take(i as int)), name@);
            }
            names.insert(at, name);
        } else {
            proof {
                assert(model_names(all.take(i + 1)) == model_names(all.take(i as int)));
            }
        }
        i += 1;
    }
    proof {
        assert(all.take(i as int) =~= all);
    }
    names
}

} // verus!
