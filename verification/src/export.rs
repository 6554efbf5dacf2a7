//! Meetings as Markdown documents: the text of the document and the name of
//! its file.

use vstd::prelude::*;
use vstd::string::StringExecFns;
use crate::text::{push_char, same_text, text_of, to_chars, trim, trimmed};

verus! {

/// Whether `c` is one of the characters `char::is_alphanumeric` accepts.
pub uninterp spec fn char_is_alphanumeric(c: char) -> bool;

/// `char::is_alphanumeric`: the result is whether `c` is a letter or a number
/// by its Unicode properties, which depends on `c` alone.
#[verifier::external_body]
fn is_alphanumeric(c: char) -> (r: bool)
    ensures
        r == char_is_alphanumeric(c),
{
    c.is_alphanumeric()
}

/// Something to do that a meeting left behind.
#[derive(Debug, PartialEq, Eq)]
pub struct ActionItem {
    pub id: String,
    pub task: String,
    pub assignee: Option<String>,
    pub due_date: Option<String>,
    pub priority: String,
    pub status: String,
    pub context: Option<String>,
}

/// What an `ActionItem` shows in a document.
pub struct ActionItemView {
    pub task: Seq<char>,
    pub assignee: Option<Seq<char>>,
    pub due_date: Option<Seq<char>>,
    pub status: Seq<char>,
}

impl View for ActionItem {
    type V = ActionItemView;

    open spec fn view(&self) -> ActionItemView {
        ActionItemView {
            task: self.task@,
            assignee: text_of(self.assignee),
            due_date: text_of(self.due_date),
            status: self.status@,
        }
    }
}

/// A meeting as it is stored.
#[derive(Debug, PartialEq, Eq)]
pub struct MeetingRecord {
    pub id: String,
    pub title: String,
    pub notes: String,
    pub transcript: String,
    pub summary: String,
    pub action_items: Vec<ActionItem>,
    pub created_at: String,
    pub updated_at: String,
}

/// What a `MeetingRecord` shows in a document.
pub struct MeetingView {
    pub title: Seq<char>,
    pub notes: Seq<char>,
    pub transcript: Seq<char>,
    pub summary: Seq<char>,
    pub action_items: Seq<ActionItemView>,
    pub created_at: Seq<char>,
    pub updated_at: Seq<char>,
}

impl View for MeetingRecord {
    type V = MeetingView;

    open spec fn view(&self) -> MeetingView {
        MeetingView {
            title: self.title@,
            notes: self.notes@,
            transcript: self.transcript@,
            summary: self.summary@,
            action_items: self.action_items@.map_values(|item: ActionItem| item@),
            created_at: self.created_at@,
            updated_at: self.updated_at@,
        }
    }
}

/// The line of one action item: a box that is ticked where the item is
/// completed, who does it, what, and until when.
pub open spec fn action_line(item: ActionItemView) -> Seq<char> {
    "- "@ + (if item.status == "completed"@ {
        "[x]"@
    } else {
        "[ ]"@
    }) + " **"@ + (match item.assignee {
        Some(name) => name,
        None => "Unassigned"@,
    }) + "**: "@ + item.task + (match item.due_date {
        Some(date) => " (due: "@ + date + ")"@,
        None => Seq::empty(),
    }) + "\n"@
}

/// The lines of the action items, in order.
pub open spec fn action_lines(items: Seq<ActionItemView>) -> Seq<char>
    decreases items.len(),
{
    if items.len() == 0 {
        Seq::empty()
    } else {
        action_lines(items.drop_last()) + action_line(items.last())
    }
}

/// The head of the document: title and dates.
pub open spec fn header_section(meeting: MeetingView) -> Seq<char> {
    "# "@ + meeting.title + "\n\n"@ + "**Date:** "@ + meeting.created_at + "  \n"@
        + "**Last Updated:** "@ + meeting.updated_at + "\n\n"@
}

/// The summary, where there is one.
pub open spec fn summary_section(meeting: MeetingView) -> Seq<char> {
    if meeting.summary.len() > 0 {
        "---\n\n"@ + meeting.summary + "\n\n"@
    } else {
        Seq::empty()
    }
}

/// The action items, where there are any.
pub open spec fn actions_section(meeting: MeetingView) -> Seq<char> {
    if meeting.action_items.len() > 0 {
        "## Action Items\n\n"@ + action_lines(meeting.action_items) + "\n"@
    } else {
        Seq::empty()
    }
}

/// The notes, where there are any.
pub open spec fn notes_section(meeting: MeetingView) -> Seq<char> {
    if meeting.notes.len() > 0 {
        "## Notes\n\n"@ + meeting.notes + "\n\n"@
    } else {
        Seq::empty()
    }
}

/// The transcript, folded, where it is asked for and there is one.
pub open spec fn transcript_section(meeting: MeetingView, include_transcript: bool) -> Seq<char> {
    if include_transcript && meeting.transcript.len() > 0 {
        "## Transcript\n\n"@ + "<details>\n<summary>Click to expand transcript</summary>\n\n"@
            + meeting.transcript + "\n\n</details>\n\n"@
    } else {
        Seq::empty()
    }
}

/// The Markdown document of a meeting: head, summary, action items, notes,
/// transcript and a closing line. A part without content is left out.
pub open spec fn meeting_markdown(meeting: MeetingView, include_transcript: bool) -> Seq<char> {
    header_section(meeting) + summary_section(meeting) + actions_section(meeting) + notes_section(
        meeting,
    ) + transcript_section(meeting, include_transcript) + "---\n*Generated by Voxii*\n"@
}

/// Appends the line of one action item to `out`.
fn push_action_line(out: &mut String, item: &ActionItem)
    ensures
        final(out)@ == old(out)@ + action_line(item@),
{
    out.append("- ");
    if same_text(item.status.as_str(), "completed") {
        out.append("[x]");
    } else {
        out.append("[ ]");
    }
    out.append(" **");
    match &item.assignee {
        Some(name) => out.append(name.as_str()),
        None => out.append("Unassigned"),
    }
    out.append("**: ");
    out.append(item.task.as_str());
    match &item.due_date {
        Some(date) => {
            out.append(" (due: ");
            out.append(date.as_str());
            out.append(")");
        },
        None => {},
    }
    out.append("\n");
    proof {
        assert(final(out)@ =~= old(out)@ + action_line(item@));
    }
}

/// Appends the head of the document to `out`.
fn push_header(out: &mut String, meeting: &MeetingRecord)
    ensures
        final(out)@ == old(out)@ + header_section(meeting@),
{
    out.append("# ");
    out.append(meeting.title.as_str());
    out.append("\n\n");
    out.append("**Date:** ");
    out.append(meeting.created_at.as_str());
    out.append("  \n");
    out.append("**Last Updated:** ");
    out.append(meeting.updated_at.as_str());
    out.append("\n\n");
    proof {
        assert(final(out)@ =~= old(out)@ + header_section(meeting@));
    }
}

/// Appends the summary to `out`, where there is one.
fn push_summary(out: &mut String, meeting: &MeetingRecord)
    ensures
        final(out)@ == old(out)@ + summary_section(meeting@),
{
    if !meeting.summary.as_str().is_empty() {
        out.append("---\n\n");
        out.append(meeting.summary.as_str());
        out.append("\n\n");
    }
    proof {
        assert(final(out)@ =~= old(out)@ + summary_section(meeting@));
    }
}

/// Appends the action items to `out`, where there are any.
fn push_actions(out: &mut String, meeting: &MeetingRecord)
    ensures
        final(out)@ == old(out)@ + actions_section(meeting@),
{
    if meeting.action_items.len() > 0 {
        out.append("## Action Items\n\n");
        let ghost items = meeting@.action_items;
        let ghost start = out@;
        let mut i: usize = 0;
        proof {
            assert(start + action_lines(items.take(0)) =~= start);
        }
        while i < meeting.action_items.len()
            invariant
                i <= meeting.action_items@.len(),
                items == meeting@.action_items,
                out@ == start + action_lines(items.take(i as int)),
            decreases meeting.action_items@.len() - i,
        {
            proof {
                assert(items.take(i + 1).drop_last() =~= items.take(i as int));
                assert(items.take(i + 1).last() == meeting.action_items@[i as int]@);
                assert(start + action_lines(items.take(i + 1)) =~= start + action_lines(
                    items.take(i as int),
                ) + action_line(meeting.action_items@[i as int]@));
            }
            push_action_line(out, &meeting.action_items[i]);
            i += 1;
        }
        proof {
            assert(items.take(i as int) =~= items);
        }
        out.append("\n");
    }
    proof {
        assert(final(out)@ =~= old(out)@ + actions_section(meeting@));
    }
}

/// Appends the notes to `out`, where there are any.
fn push_notes(out: &mut String, meeting: &MeetingRecord)
    ensures
        final(out)@ == old(out)@ + notes_section(meeting@),
{
    if !meeting.notes.as_str().is_empty() {
        out.append("## Notes\n\n");
        out.append(meeting.notes.as_str());
        out.append("\n\n");
    }
    proof {
        assert(final(out)@ =~= old(out)@ + notes_section(meeting@));
    }
}

/// Appends the transcript to `out`, where it is asked for and there is one.
fn push_transcript(out: &mut String, meeting: &MeetingRecord, include_transcript: bool)
    ensures
        final(out)@ == old(out)@ + transcript_section(meeting@, include_transcript),
{
    if include_transcript && !meeting.transcript.as_str().is_empty() {
        out.append("## Transcript\n\n");
        out.append("<details>\n<summary>Click to expand transcript</summary>\n\n");
        out.append(meeting.transcript.as_str());
        out.append("\n\n</details>\n\n");
    }
    proof {
        assert(final(out)@ =~= old(out)@ + transcript_section(meeting@, include_transcript));
    }
}

/// Writes the Markdown document of a meeting.
pub fn render_meeting_markdown(meeting: &MeetingRecord, include_transcript: bool) -> (document:
    String)
    ensures
        document@ == meeting_markdown(meeting@, include_transcript),
{
    let mut md = String::new();
    push_header(&mut md, meeting);
    push_summary(&mut md, meeting);
    push_actions(&mut md, meeting);
    push_notes(&mut md, meeting);
    push_transcript(&mut md, meeting, include_transcript);
    md.append("---\n*Generated by Voxii*\n");
    proof {
        assert(md@ =~= meeting_markdown(meeting@, include_transcript));
    }
    md
}

/// `c` where a file name may hold it, else an underscore. Letters and
/// numbers, spaces and hyphens may stand; `alphanumeric` says whether `c` is
/// a letter or a number.
pub open spec fn kept_or_replaced(c: char, alphanumeric: bool) -> char {
    if alphanumeric || c == ' ' || c == '-' {
        c
    } else {
        '_'
    }
}

/// `c` where a file name may hold it, else an underscore.
pub fn safe_char(c: char, alphanumeric: bool) -> (r: char)
    ensures
        r == kept_or_replaced(c, alphanumeric),
{
    if alphanumeric || c == ' ' || c == '-' {
        c
    } else {
        '_'
    }
}

/// `c` where a file name may hold it, else an underscore.
pub open spec fn file_name_char(c: char) -> char {
    kept_or_replaced(c, char_is_alphanumeric(c))
}

/// `title` with every character that a file name should not hold replaced by
/// an underscore.
pub open spec fn sanitized(title: Seq<char>) -> Seq<char> {
    title.map_values(|c: char| file_name_char(c))
}

/// What stands before the first `T` of `stamp`: of a time stamp, the date.
pub open spec fn date_part(stamp: Seq<char>) -> Seq<char>
    decreases stamp.len(),
{
    if stamp.len() == 0 || stamp[0] == 'T' {
        Seq::empty()
    } else {
        seq![stamp[0]] + date_part(stamp.drop_first())
    }
}

/// The file name of an exported meeting: its date, its title made safe, and
/// the Markdown extension.
pub open spec fn export_file_name_spec(created_at: Seq<char>, title: Seq<char>) -> Seq<char> {
    date_part(created_at) + " - "@ + trimmed(sanitized(title)) + ".md"@
}

/// Replaces what a file name should not hold.
pub fn sanitize_title(title: &str) -> (safe: String)
    ensures
        safe@ == sanitized(title@),
{
    let mut safe = String::new();
    for c in it: title.chars()
        invariant
            it.seq() == title@,
            safe@ == sanitized(title@.take(it.index() as int)),
    {
        proof {
            assert(sanitized(title@.take(it.index() + 1)) =~= sanitized(
                title@.take(it.index() as int),
            ).push(file_name_char(c)));
        }
        push_char(&mut safe, safe_char(c, is_alphanumeric(c)));
    }
    proof {
        assert(title@.take(title@.len() as int) =~= title@);
    }
    safe
}

/// The date part of `stamp` is its first `k` characters as soon as no `T`
/// stands before `k` and one stands at `k`, or `stamp` ends there.
proof fn lemma_date_part(stamp: Seq<char>, k: int)
    requires
        0 <= k <= stamp.len(),
        forall|i: int| 0 <= i < k ==> #[trigger] stamp[i] != 'T',
        k < stamp.len() ==> stamp[k] == 'T',
    ensures
        date_part(stamp) == stamp.take(k),
    decreases stamp.len(),
{
    if k == 0 {
        assert(stamp.take(0) =~= Seq::<char>::empty());
    } else {
        let rest = stamp.drop_first();
        assert forall|i: int| 0 <= i < k - 1 implies #[trigger] rest[i] != 'T' by {
            assert(rest[i] == stamp[i + 1]);
        }
        if k - 1 < rest.len() {
            assert(rest[k - 1] == stamp[k]);
        }
        lemma_date_part(rest, k - 1);
        assert(seq![stamp[0]] + rest.take(k - 1) =~= stamp.take(k));
    }
}

/// Names the file of an exported meeting.
pub fn export_file_name(created_at: &str, title: &str) -> (name: String)
    ensures
        name@ == export_file_name_spec(created_at@, title@),
{
    let stamp = to_chars(created_at);
    let mut k: usize = 0;
    while k < stamp.len() && stamp[k] != 'T'
        invariant
            k <= stamp@.len(),
            forall|i: int| 0 <= i < k ==> #[trigger] stamp@[i] != 'T',
        decreases stamp@.len() - k,
    {
        k += 1;
    }
    proof {
        lemma_date_part(stamp@, k as int);
    }
    let mut name = crate::text::string_of(&stamp, 0, k);
    name.append(" - ");
    let safe = sanitize_title(title);
    name.append(trim(safe.as_str()).as_str());
    name.append(".md");
    name
}

/// Where exports go: the configured directory, or, where none is configured,
/// the directory `Voxii` among the user's documents.
#[derive(Debug, PartialEq, Eq)]
pub enum ExportDirectory {
    Configured(String),
    Documents,
}

/// The name of the directory among the user's documents.
pub fn documents_folder_name() -> (r: &'static str)
    ensures
        r@ == "Voxii"@,
{
    "Voxii"
}

/// Chooses the directory for exports.
pub fn export_directory(local_path: &str) -> (directory: ExportDirectory)
    ensures
        match directory {
            ExportDirectory::Configured(path) => local_path@.len() > 0 && path@ == local_path@,
            ExportDirectory::Documents => local_path@.len() == 0,
        },
{
    if local_path.is_empty() {
        ExportDirectory::Documents
    } else {
        ExportDirectory::Configured(local_path.to_owned())
    }
}

} // verus!
