//! Streaming sessions: a registry of open sessions, each collecting the
//! chunks of transcript that arrive for it, in any order, until it is ended
//! and its chunks are merged.

use vstd::prelude::*;
use vstd::string::StrSliceExecFns;
use crate::config::TranscriptionProvider;
use crate::merge::{
    chunk_views, distinct_indices, merge_chunks, merge_ignores_submission_order, merged_text,
    in_index_order, texts_of, Chunk, ChunkView,
};

verus! {

/// The state of one streaming session.
#[derive(Debug, PartialEq, Eq)]
pub struct StreamingSession {
    /// The chunks received so far, in the order of submission.
    pub chunks: Vec<Chunk>,
    /// The backend that transcribes every chunk of this session.
    pub provider: TranscriptionProvider,
}

/// The characters of a `StreamingSession`.
pub struct SessionView {
    pub chunks: Seq<ChunkView>,
    pub provider: TranscriptionProvider,
}

impl View for StreamingSession {
    type V = SessionView;

    open spec fn view(&self) -> SessionView {
        SessionView { chunks: chunk_views(self.chunks@), provider: self.provider }
    }
}

/// Why a session operation failed.
#[derive(Clone, Copy, Debug, PartialEq, Eq, Structural)]
pub enum SessionError {
    /// The registry holds no session of that id: it was never created, or it
    /// has ended.
    SessionNotFound,
}

/// A session as it is right after its creation.
pub open spec fn fresh_session(provider: TranscriptionProvider) -> SessionView {
    SessionView { chunks: Seq::empty(), provider }
}

/// The registry after a session was created under `id`.
pub open spec fn create_effect(
    sessions: Map<Seq<char>, SessionView>,
    id: Seq<char>,
    provider: TranscriptionProvider,
) -> Map<Seq<char>, SessionView> {
    sessions.insert(id, fresh_session(provider))
}

/// The registry after `chunk` was submitted to session `id`, and what the
/// caller is told.
pub open spec fn append_effect(
    sessions: Map<Seq<char>, SessionView>,
    id: Seq<char>,
    chunk: ChunkView,
) -> (Map<Seq<char>, SessionView>, Result<(), SessionError>) {
    if sessions.dom().contains(id) {
        (
            sessions.insert(
                id,
                SessionView {
                    chunks: sessions[id].chunks.push(chunk),
                    provider: sessions[id].provider,
                },
            ),
            Ok(()),
        )
    } else {
        (sessions, Err(SessionError::SessionNotFound))
    }
}

/// The provider of session `id`.
pub open spec fn provider_lookup(sessions: Map<Seq<char>, SessionView>, id: Seq<char>) -> Result<
    TranscriptionProvider,
    SessionError,
> {
    if sessions.dom().contains(id) {
        Ok(sessions[id].provider)
    } else {
        Err(SessionError::SessionNotFound)
    }
}

/// The registry after session `id` was ended, and the transcript that the
/// caller gets.
pub open spec fn finalize_effect(sessions: Map<Seq<char>, SessionView>, id: Seq<char>) -> (
    Map<Seq<char>, SessionView>,
    Result<Seq<char>, SessionError>,
) {
    if sessions.dom().contains(id) {
        (sessions.remove(id), Ok(merged_text(sessions[id].chunks)))
    } else {
        (sessions, Err(SessionError::SessionNotFound))
    }
}

/// The view of a transcript or its failure.
pub open spec fn outcome_of(result: Result<String, SessionError>) -> Result<
    Seq<char>,
    SessionError,
> {
    match result {
        Ok(text) => Ok(text@),
        Err(e) => Err(e),
    }
}

/// One open session under its identifier.
struct SessionEntry {
    id: String,
    session: StreamingSession,
}

/// The sessions that are open, each under its id.
pub struct SessionRegistry {
    entries: Vec<SessionEntry>,
}

/// Some entry has the identifier `id`.
spec fn holds_id(entries: Seq<SessionEntry>, id: Seq<char>) -> bool {
    exists|i: int| 0 <= i < entries.len() && entries[i].id@ == id
}

/// Where an entry with the identifier `id` stands.
spec fn entry_of(entries: Seq<SessionEntry>, id: Seq<char>) -> int {
    choose|i: int| 0 <= i < entries.len() && entries[i].id@ == id
}

/// No two entries share an identifier.
spec fn distinct_ids(entries: Seq<SessionEntry>) -> bool {
    forall|i: int, j: int| 0 <= i < j < entries.len() ==> entries[i].id@ != entries[j].id@
}

/// The sessions of the entries, each under its identifier.
spec fn sessions_of(entries: Seq<SessionEntry>) -> Map<Seq<char>, SessionView> {
    Map::new(
        |id: Seq<char>| holds_id(entries, id),
        |id: Seq<char>| entries[entry_of(entries, id)].session@,
    )
}

/// Entry `i` is the one that the map shows under its id.
proof fn lemma_entry_is_shown(entries: Seq<SessionEntry>, i: int)
    requires
        distinct_ids(entries),
        0 <= i < entries.len(),
    ensures
        holds_id(entries, entries[i].id@),
        entry_of(entries, entries[i].id@) == i,
        sessions_of(entries).dom().contains(entries[i].id@),
        sessions_of(entries)[entries[i].id@] == entries[i].session@,
{
    assert(holds_id(entries, entries[i].id@));
    let j = entry_of(entries, entries[i].id@);
    if j < i {
        assert(entries[j].id@ != entries[i].id@);
    } else if i < j {
        assert(entries[i].id@ != entries[j].id@);
    }
}

impl View for SessionRegistry {
    type V = Map<Seq<char>, SessionView>;

    closed spec fn view(&self) -> Map<Seq<char>, SessionView> {
        sessions_of(self.entries@)
    }
}

impl SessionRegistry {
    /// Every identifier is in use once.
    #[verifier::type_invariant]
    spec fn well_formed(self) -> bool {
        distinct_ids(self.entries@)
    }

    /// A registry without sessions.
    pub fn new() -> (registry: SessionRegistry)
        ensures
            registry@ == Map::<Seq<char>, SessionView>::empty(),
    {
        let registry = SessionRegistry { entries: Vec::new() };
        proof {
            assert(registry@ =~= Map::<Seq<char>, SessionView>::empty());
        }
        registry
    }

    /// Where the entry of `id` stands, if there is one.
    fn position(&self, id: &str) -> (at: Option<usize>)
        ensures
            match at {
                Some(i) => i < self.entries@.len() && self.entries@[i as int].id@ == id@,
                None => !holds_id(self.entries@, id@),
            },
    {
        let mut i: usize = 0;
        while i < self.entries.len()
            invariant
                i <= self.entries@.len(),
                forall|j: int| 0 <= j < i ==> self.entries@[j].id@ != id@,
            decreases self.entries@.len() - i,
        {
            if crate::text::same_text(self.entries[i].id.as_str(), id) {
                return Some(i);
            }
            i += 1;
        }
        None
    }

    /// Whether a session is open under `id`.
    pub fn contains(&self, id: &str) -> (found: bool)
        ensures
            found == self@.dom().contains(id@),
    {
        self.position(id).is_some()
    }

    /// Number of open sessions.
    pub fn len(&self) -> (count: usize)
        ensures
            count == self@.len(),
            self@.dom().finite(),
    {
        proof {
            use_type_invariant(self);
            lemma_sessions_count(self.entries@);
        }
        self.entries.len()
    }
}

/// A map built from entries with distinct ids has as many sessions as there
/// are entries.
proof fn lemma_sessions_count(entries: Seq<SessionEntry>)
    requires
        distinct_ids(entries),
    ensures
        sessions_of(entries).dom().finite(),
        sessions_of(entries).len() == entries.len(),
    decreases entries.len(),
{
    if entries.len() == 0 {
        assert(sessions_of(entries).dom() =~= Set::<Seq<char>>::empty());
    } else {
        let rest = entries.drop_last();
        let last = entries.last();
        assert(distinct_ids(rest)) by {
            assert forall|i: int, j: int| 0 <= i < j < rest.len() implies rest[i].id@
                != rest[j].id@ by {
                assert(rest[i] == entries[i] && rest[j] == entries[j]);
            }
        }
        lemma_sessions_count(rest);
        assert(!holds_id(rest, last.id@)) by {
            if holds_id(rest, last.id@) {
                let i = entry_of(rest, last.id@);
                assert(rest[i] == entries[i]);
                assert(entries[i].id@ != entries[entries.len() - 1].id@);
            }
        }
        assert(sessions_of(entries).dom() =~= sessions_of(rest).dom().insert(last.id@)) by {
            assert forall|id: Seq<char>| holds_id(entries, id) <==> (holds_id(rest, id) || id
                == last.id@) by {
                if holds_id(entries, id) {
                    let i = entry_of(entries, id);
                    if i < rest.len() {
                        assert(rest[i] == entries[i]);
                    }
                }
                if holds_id(rest, id) {
                    let i = entry_of(rest, id);
                    assert(rest[i] == entries[i]);
                }
                if id == last.id@ {
                    assert(entries[entries.len() - 1].id@ == id);
                }
            }
        }
    }
}

/// A new entry under an id that no entry has shows as one more session.
proof fn lemma_push_entry(entries: Seq<SessionEntry>, entry: SessionEntry)
    requires
        distinct_ids(entries),
        !holds_id(entries, entry.id@),
    ensures
        distinct_ids(entries.push(entry)),
        sessions_of(entries.push(entry)) == sessions_of(entries).insert(entry.id@, entry.session@),
{
    let grown = entries.push(entry);
    assert forall|i: int, j: int| 0 <= i < j < grown.len() implies grown[i].id@
        != grown[j].id@ by {
        assert(grown[i] == entries[i]);
        if j < entries.len() {
            assert(grown[j] == entries[j]);
        }
    }
    assert forall|id: Seq<char>| holds_id(grown, id) <==> (holds_id(entries, id) || id
        == entry.id@) by {
        if holds_id(grown, id) {
            let i = entry_of(grown, id);
            if i < entries.len() {
                assert(entries[i] == grown[i]);
            }
        }
        if holds_id(entries, id) {
            let i = entry_of(entries, id);
            assert(entries[i] == grown[i]);
        }
        if id == entry.id@ {
            assert(grown[grown.len() - 1].id@ == id);
        }
    }
    assert forall|id: Seq<char>| holds_id(grown, id) implies sessions_of(grown)[id]
        == sessions_of(entries).insert(entry.id@, entry.session@)[id] by {
        let i = entry_of(grown, id);
        lemma_entry_is_shown(grown, i);
        if i < entries.len() {
            assert(entries[i] == grown[i]);
            lemma_entry_is_shown(entries, i);
        }
    }
    assert(sessions_of(grown) =~= sessions_of(entries).insert(entry.id@, entry.session@));
}

/// An entry replaced by one of the same id shows as that session replaced.
proof fn lemma_update_entry(entries: Seq<SessionEntry>, at: int, entry: SessionEntry)
    requires
        distinct_ids(entries),
        0 <= at < entries.len(),
        entry.id@ == entries[at].id@,
    ensures
        distinct_ids(entries.update(at, entry)),
        sessions_of(entries.update(at, entry)) == sessions_of(entries).insert(
            entry.id@,
            entry.session@,
        ),
{
    let changed = entries.update(at, entry);
    assert forall|i: int, j: int| 0 <= i < j < changed.len() implies changed[i].id@
        != changed[j].id@ by {
        assert(changed[i].id@ == entries[i].id@);
        assert(changed[j].id@ == entries[j].id@);
    }
    assert forall|id: Seq<char>| holds_id(changed, id) <==> holds_id(entries, id) by {
        if holds_id(changed, id) {
            let i = entry_of(changed, id);
            assert(entries[i].id@ == changed[i].id@);
        }
        if holds_id(entries, id) {
            let i = entry_of(entries, id);
            assert(entries[i].id@ == changed[i].id@);
        }
    }
    lemma_entry_is_shown(entries, at);
    assert forall|id: Seq<char>| holds_id(changed, id) implies sessions_of(changed)[id]
        == sessions_of(entries).insert(entry.id@, entry.session@)[id] by {
        let i = entry_of(changed, id);
        lemma_entry_is_shown(changed, i);
        if i != at {
            assert(entries[i] == changed[i]);
            lemma_entry_is_shown(entries, i);
        }
    }
    assert(sessions_of(changed) =~= sessions_of(entries).insert(entry.id@, entry.session@));
}

/// An entry taken out shows as its session removed.
proof fn lemma_remove_entry(entries: Seq<SessionEntry>, at: int)
    requires
        distinct_ids(entries),
        0 <= at < entries.len(),
    ensures
        distinct_ids(entries.remove(at)),
        !holds_id(entries.remove(at), entries[at].id@),
        sessions_of(entries.remove(at)) == sessions_of(entries).remove(entries[at].id@),
{
    let rest = entries.remove(at);
    let up = |i: int| if i < at { i } else { i + 1 };
    assert forall|i: int| 0 <= i < rest.len() implies rest[i] == entries[up(i)] by {}
    assert forall|i: int, j: int| 0 <= i < j < rest.len() implies rest[i].id@ != rest[j].id@ by {
        assert(rest[i] == entries[up(i)]);
        assert(rest[j] == entries[up(j)]);
    }
    if holds_id(rest, entries[at].id@) {
        let i = entry_of(rest, entries[at].id@);
        assert(rest[i] == entries[up(i)]);
        if up(i) < at {
            assert(entries[up(i)].id@ != entries[at].id@);
        } else {
            assert(entries[at].id@ != entries[up(i)].id@);
        }
    }
    assert forall|id: Seq<char>| holds_id(rest, id) <==> (holds_id(entries, id) && id
        != entries[at].id@) by {
        if holds_id(rest, id) {
            let i = entry_of(rest, id);
            assert(rest[i] == entries[up(i)]);
        }
        if holds_id(entries, id) && id != entries[at].id@ {
            let i = entry_of(entries, id);
            if i < at {
                assert(rest[i] == entries[i]);
            } else {
                assert(rest[i - 1] == entries[i]);
            }
        }
    }
    assert forall|id: Seq<char>| holds_id(rest, id) implies sessions_of(rest)[id] == sessions_of(
        entries,
    ).remove(entries[at].id@)[id] by {
        let i = entry_of(rest, id);
        lemma_entry_is_shown(rest, i);
        assert(rest[i] == entries[up(i)]);
        lemma_entry_is_shown(entries, up(i));
    }
    assert(sessions_of(rest) =~= sessions_of(entries).remove(entries[at].id@));
}

impl SessionRegistry {
    /// Opens a session under `id`. A session that was open under that id is
    /// replaced by the new, empty one.
    pub fn insert_session(&mut self, id: String, provider: TranscriptionProvider)
        ensures
            final(self)@ == create_effect(old(self)@, id@, provider),
    {
        proof {
            use_type_invariant(&*self);
        }
        let session = StreamingSession { chunks: Vec::new(), provider };
        proof {
            assert(session@.chunks =~= Seq::<ChunkView>::empty());
        }
        let found = self.position(id.as_str());
        let ghost before = self.entries@;
        let mut entries: Vec<SessionEntry> = Vec::new();
        std::mem::swap(&mut self.entries, &mut entries);
        let entry = SessionEntry { id, session };
        match found {
            Some(at) => {
                proof {
                    lemma_update_entry(before, at as int, entry);
                    assert(before.remove(at as int).insert(at as int, entry) =~= before.update(
                        at as int,
                        entry,
                    ));
                }
                entries.remove(at);
                entries.insert(at, entry);
            },
            None => {
                proof {
                    lemma_push_entry(before, entry);
                }
                entries.push(entry);
            },
        }
        std::mem::swap(&mut self.entries, &mut entries);
    }

    /// The length of the longest identifier in use.
    fn longest_id(&self) -> (longest: usize)
        ensures
            forall|i: int| 0 <= i < self.entries@.len() ==> self.entries@[i].id@.len() <= longest,
    {
        let mut longest: usize = 0;
        let mut i: usize = 0;
        while i < self.entries.len()
            invariant
                i <= self.entries@.len(),
                forall|j: int| 0 <= j < i ==> self.entries@[j].id@.len() <= longest,
            decreases self.entries@.len() - i,
        {
            let length = self.entries[i].id.as_str().unicode_len();
            if length > longest {
                longest = length;
            }
            i += 1;
        }
        longest
    }

    /// An identifier that no open session has, made from `candidate`: the
    /// candidate itself where it is free, else the candidate followed by as
    /// many zeros as make it longer than every identifier in use.
    pub fn unused_id(&self, candidate: String) -> (id: String)
        ensures
            !self@.dom().contains(id@),
            !self@.dom().contains(candidate@) ==> id@ == candidate@,
            id@.len() >= candidate@.len(),
            id@.take(candidate@.len() as int) == candidate@,
            forall|i: int| candidate@.len() <= i < id@.len() ==> id@[i] == '0',
    {
        let mut id = candidate;
        proof {
            assert(id@.take(id@.len() as int) =~= id@);
        }
        if self.contains(id.as_str()) {
            let longest = self.longest_id();
            let mut length: usize = id.as_str().unicode_len();
            while length < longest
                invariant
                    length == id@.len(),
                    id@.len() >= candidate@.len(),
                    id@.take(candidate@.len() as int) == candidate@,
                    forall|i: int| candidate@.len() <= i < id@.len() ==> id@[i] == '0',
                decreases longest - length,
            {
                crate::text::push_char(&mut id, '0');
                length += 1;
                proof {
                    assert(id@.take(candidate@.len() as int) =~= candidate@);
                }
            }
            crate::text::push_char(&mut id, '0');
            proof {
                assert(id@.take(candidate@.len() as int) =~= candidate@);
                assert(id@.len() > longest);
                if holds_id(self.entries@, id@) {
                    let i = entry_of(self.entries@, id@);
                    assert(self.entries@[i].id@.len() <= longest);
                }
            }
        }
        id
    }

    /// Opens a session under a fresh identifier and returns the identifier.
    /// The identifier is one that no open session has, so every other session
    /// stays as it is. It is a random hyphenated identifier; should chance
    /// ever produce one that is in use, it is lengthened as `unused_id` says.
    pub fn create(&mut self, provider: TranscriptionProvider) -> (id: String)
        ensures
            !old(self)@.dom().contains(id@),
            final(self)@ == create_effect(old(self)@, id@, provider),
            id@.len() >= 36,
            crate::ident::is_hyphenated_id(id@.take(36)),
    {
        let id = self.unused_id(crate::ident::fresh_id());
        self.insert_session(id.clone(), provider);
        id
    }

    /// Adds a chunk to session `id`, behind the chunks it already holds.
    pub fn append_chunk(&mut self, id: &str, index: u32, text: String) -> (result: Result<
        (),
        SessionError,
    >)
        ensures
            (final(self)@, result) == append_effect(
                old(self)@,
                id@,
                ChunkView { index, text: text@ },
            ),
    {
        proof {
            use_type_invariant(&*self);
        }
        match self.position(id) {
            Some(at) => {
                let ghost before = self.entries@;
                let mut entries: Vec<SessionEntry> = Vec::new();
                std::mem::swap(&mut self.entries, &mut entries);
                proof {
                    lemma_entry_is_shown(before, at as int);
                }
                let mut entry = entries.remove(at);
                let chunk = Chunk { index, text };
                proof {
                    assert(chunk_views(entry.session.chunks@.push(chunk)) =~= chunk_views(
                        entry.session.chunks@,
                    ).push(chunk@));
                }
                entry.session.chunks.push(chunk);
                proof {
                    lemma_update_entry(before, at as int, entry);
                    assert(before.remove(at as int).insert(at as int, entry) =~= before.update(
                        at as int,
                        entry,
                    ));
                }
                entries.insert(at, entry);
                std::mem::swap(&mut self.entries, &mut entries);
                Ok(())
            },
            None => Err(SessionError::SessionNotFound),
        }
    }

    /// The provider that session `id` was created with.
    pub fn get_provider(&self, id: &str) -> (result: Result<TranscriptionProvider, SessionError>)
        ensures
            result == provider_lookup(self@, id@),
    {
        proof {
            use_type_invariant(self);
        }
        match self.position(id) {
            Some(at) => {
                proof {
                    lemma_entry_is_shown(self.entries@, at as int);
                }
                Ok(self.entries[at].session.provider)
            },
            None => Err(SessionError::SessionNotFound),
        }
    }

    /// Session `id` as it stands: its chunks in the order of submission, and
    /// its provider.
    pub fn get(&self, id: &str) -> (session: Option<&StreamingSession>)
        ensures
            match session {
                Some(found) => self@.dom().contains(id@) && found@ == self@[id@],
                None => !self@.dom().contains(id@),
            },
    {
        proof {
            use_type_invariant(self);
        }
        match self.position(id) {
            Some(at) => {
                proof {
                    lemma_entry_is_shown(self.entries@, at as int);
                }
                Some(&self.entries[at].session)
            },
            None => None,
        }
    }

    /// Ends session `id`: takes it out of the registry and returns its
    /// transcript, the chunks by ascending index joined by single spaces.
    pub fn finalize(&mut self, id: &str) -> (result: Result<String, SessionError>)
        ensures
            (final(self)@, outcome_of(result)) == finalize_effect(old(self)@, id@),
    {
        proof {
            use_type_invariant(&*self);
        }
        match self.position(id) {
            Some(at) => {
                proof {
                    lemma_entry_is_shown(self.entries@, at as int);
                    lemma_remove_entry(self.entries@, at as int);
                }
                let mut entries: Vec<SessionEntry> = Vec::new();
                std::mem::swap(&mut self.entries, &mut entries);
                let entry = entries.remove(at);
                std::mem::swap(&mut self.entries, &mut entries);
                Ok(merge_chunks(entry.session.chunks))
            },
            None => Err(SessionError::SessionNotFound),
        }
    }
}

/// The registry after `chunks` were submitted to session `id`, one after the
/// other.
pub open spec fn submit_effect(
    sessions: Map<Seq<char>, SessionView>,
    id: Seq<char>,
    chunks: Seq<ChunkView>,
) -> Map<Seq<char>, SessionView>
    decreases chunks.len(),
{
    if chunks.len() == 0 {
        sessions
    } else {
        append_effect(submit_effect(sessions, id, chunks.drop_last()), id, chunks.last()).0
    }
}

/// A session keeps every chunk it is sent, in the order of submission.
pub proof fn submissions_accumulate(
    sessions: Map<Seq<char>, SessionView>,
    id: Seq<char>,
    chunks: Seq<ChunkView>,
)
    requires
        sessions.dom().contains(id),
    ensures
        submit_effect(sessions, id, chunks) == sessions.insert(
            id,
            SessionView {
                chunks: sessions[id].chunks + chunks,
                provider: sessions[id].provider,
            },
        ),
    decreases chunks.len(),
{
    if chunks.len() == 0 {
        assert(sessions[id].chunks + chunks =~= sessions[id].chunks);
        assert(sessions.insert(id, sessions[id]) =~= sessions);
    } else {
        submissions_accumulate(sessions, id, chunks.drop_last());
        let before = submit_effect(sessions, id, chunks.drop_last());
        assert((sessions[id].chunks + chunks.drop_last()).push(chunks.last())
            =~= sessions[id].chunks + chunks);
        assert(before.insert(
            id,
            SessionView {
                chunks: sessions[id].chunks + chunks,
                provider: sessions[id].provider,
            },
        ) =~= sessions.insert(
            id,
            SessionView {
                chunks: sessions[id].chunks + chunks,
                provider: sessions[id].provider,
            },
        ));
    }
}

/// Ending a session returns the merge of exactly the chunks that were
/// submitted since its creation.
pub proof fn finalize_merges_submissions(
    sessions: Map<Seq<char>, SessionView>,
    id: Seq<char>,
    provider: TranscriptionProvider,
    chunks: Seq<ChunkView>,
)
    ensures
        finalize_effect(submit_effect(create_effect(sessions, id, provider), id, chunks), id).1
            == Ok::<Seq<char>, SessionError>(merged_text(chunks)),
{
    let created = create_effect(sessions, id, provider);
    submissions_accumulate(created, id, chunks);
    assert(created[id].chunks + chunks =~= chunks);
}

/// The transcript of a session does not depend on the order in which its
/// chunks were submitted, as long as no index was used twice.
pub proof fn finalize_ignores_submission_order(
    sessions: Map<Seq<char>, SessionView>,
    id: Seq<char>,
    provider: TranscriptionProvider,
    first: Seq<ChunkView>,
    second: Seq<ChunkView>,
)
    requires
        first.to_multiset() == second.to_multiset(),
        distinct_indices(first),
    ensures
        finalize_effect(submit_effect(create_effect(sessions, id, provider), id, first), id).1
            == finalize_effect(
            submit_effect(create_effect(sessions, id, provider), id, second),
            id,
        ).1,
{
    finalize_merges_submissions(sessions, id, provider, first);
    finalize_merges_submissions(sessions, id, provider, second);
    merge_ignores_submission_order(first, second);
}

/// A session without chunks has the empty transcript.
pub proof fn empty_session_merges_to_nothing(
    sessions: Map<Seq<char>, SessionView>,
    id: Seq<char>,
    provider: TranscriptionProvider,
)
    ensures
        merged_text(Seq::<ChunkView>::empty()) == Seq::<char>::empty(),
        finalize_effect(create_effect(sessions, id, provider), id).1 == Ok::<
            Seq<char>,
            SessionError,
        >(Seq::<char>::empty()),
{
    assert(texts_of(in_index_order(Seq::<ChunkView>::empty())) =~= Seq::<Seq<char>>::empty());
}

/// A session can be ended once: the second call finds nothing under the id
/// and leaves the registry as it is.
pub proof fn finalize_twice_fails(sessions: Map<Seq<char>, SessionView>, id: Seq<char>)
    ensures
        finalize_effect(finalize_effect(sessions, id).0, id) == (
            finalize_effect(sessions, id).0,
            Err::<Seq<char>, SessionError>(SessionError::SessionNotFound),
        ),
{
}

/// Under an id that holds no session every operation fails with
/// `SessionNotFound`, and none of them changes the registry.
pub proof fn unknown_session_is_rejected(
    sessions: Map<Seq<char>, SessionView>,
    id: Seq<char>,
    chunk: ChunkView,
)
    requires
        !sessions.dom().contains(id),
    ensures
        append_effect(sessions, id, chunk) == (
            sessions,
            Err::<(), SessionError>(SessionError::SessionNotFound),
        ),
        provider_lookup(sessions, id) == Err::<TranscriptionProvider, SessionError>(
            SessionError::SessionNotFound,
        ),
        finalize_effect(sessions, id) == (
            sessions,
            Err::<Seq<char>, SessionError>(SessionError::SessionNotFound),
        ),
{
}

/// A session keeps the provider it was created with: submitting chunks, to
/// it or to any other session, changes the provider of none.
pub proof fn provider_stays_pinned(
    sessions: Map<Seq<char>, SessionView>,
    id: Seq<char>,
    chunk: ChunkView,
    other: Seq<char>,
)
    ensures
        provider_lookup(append_effect(sessions, id, chunk).0, other) == provider_lookup(
            sessions,
            other,
        ),
{
}

/// Creating a session under an identifier that is free leaves every other
/// session as it is, and ending the new session again restores the registry.
pub proof fn create_disturbs_no_session(
    sessions: Map<Seq<char>, SessionView>,
    id: Seq<char>,
    provider: TranscriptionProvider,
)
    requires
        !sessions.dom().contains(id),
    ensures
        forall|other: Seq<char>|
            sessions.dom().contains(other) ==> #[trigger] create_effect(sessions, id, provider)[other]
                == sessions[other],
        finalize_effect(create_effect(sessions, id, provider), id).0 == sessions,
{
    assert(create_effect(sessions, id, provider).remove(id) =~= sessions);
}

} // verus!
