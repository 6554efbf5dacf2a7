//! Chunks of transcript and their merge: by ascending index, chunks of one
//! index in the order of submission, joined by single spaces.

use vstd::prelude::*;
use vstd::string::StringExecFns;

verus! {

/// One transcribed piece of audio, with the position that its sender gave it.
#[derive(Debug, PartialEq, Eq)]
pub struct Chunk {
    pub index: u32,
    pub text: String,
}

/// The characters of a `Chunk`.
pub struct ChunkView {
    pub index: u32,
    pub text: Seq<char>,
}

impl View for Chunk {
    type V = ChunkView;

    open spec fn view(&self) -> ChunkView {
        ChunkView { index: self.index, text: self.text@ }
    }
}

/// The views of a list of chunks.
pub open spec fn chunk_views(chunks: Seq<Chunk>) -> Seq<ChunkView> {
    chunks.map_values(|c: Chunk| c@)
}

/// The indices never go down along `chunks`.
pub open spec fn index_ordered(chunks: Seq<ChunkView>) -> bool {
    forall|i: int, j: int| 0 <= i <= j < chunks.len() ==> chunks[i].index <= chunks[j].index
}

/// The chunks of `chunks` that carry index `k`, in the order they have there.
pub open spec fn with_index(chunks: Seq<ChunkView>, k: u32) -> Seq<ChunkView>
    decreases chunks.len(),
{
    if chunks.len() == 0 {
        Seq::empty()
    } else if chunks.last().index == k {
        with_index(chunks.drop_last(), k).push(chunks.last())
    } else {
        with_index(chunks.drop_last(), k)
    }
}

/// `sorted` with `chunk` put behind the last chunk whose index is not above
/// its own.
pub open spec fn place_chunk(sorted: Seq<ChunkView>, chunk: ChunkView) -> Seq<ChunkView>
    decreases sorted.len(),
{
    if sorted.len() == 0 {
        seq![chunk]
    } else if sorted.last().index <= chunk.index {
        sorted.push(chunk)
    } else {
        place_chunk(sorted.drop_last(), chunk).push(sorted.last())
    }
}

/// `chunks` by ascending index; chunks of one index keep the order in which
/// they were submitted.
pub open spec fn in_index_order(chunks: Seq<ChunkView>) -> Seq<ChunkView>
    decreases chunks.len(),
{
    if chunks.len() == 0 {
        Seq::empty()
    } else {
        place_chunk(in_index_order(chunks.drop_last()), chunks.last())
    }
}

/// The texts joined by single spaces.
pub open spec fn joined(texts: Seq<Seq<char>>) -> Seq<char>
    decreases texts.len(),
{
    if texts.len() == 0 {
        Seq::empty()
    } else if texts.len() == 1 {
        texts[0]
    } else {
        joined(texts.drop_last()) + seq![' '] + texts.last()
    }
}

/// The texts of `chunks`, in their order there.
pub open spec fn texts_of(chunks: Seq<ChunkView>) -> Seq<Seq<char>> {
    chunks.map_values(|c: ChunkView| c.text)
}

/// The transcript of a session: its chunks by index, joined by single spaces.
pub open spec fn merged_text(chunks: Seq<ChunkView>) -> Seq<char> {
    joined(texts_of(in_index_order(chunks)))
}

/// Placing a chunk makes the list one longer.
pub proof fn lemma_place_chunk_len(sorted: Seq<ChunkView>, chunk: ChunkView)
    ensures
        place_chunk(sorted, chunk).len() == sorted.len() + 1,
    decreases sorted.len(),
{
    if sorted.len() > 0 && sorted.last().index > chunk.index {
        lemma_place_chunk_len(sorted.drop_last(), chunk);
    }
}

/// Every chunk of `place_chunk(sorted, chunk)` is `chunk` or comes from
/// `sorted`.
proof fn lemma_place_chunk_members(sorted: Seq<ChunkView>, chunk: ChunkView, i: int)
    requires
        0 <= i < place_chunk(sorted, chunk).len(),
    ensures
        place_chunk(sorted, chunk)[i] == chunk || exists|j: int|
            0 <= j < sorted.len() && sorted[j] == place_chunk(sorted, chunk)[i],
    decreases sorted.len(),
{
    lemma_place_chunk_len(sorted, chunk);
    if sorted.len() == 0 {
    } else if sorted.last().index <= chunk.index {
        if i < sorted.len() {
            assert(sorted[i] == place_chunk(sorted, chunk)[i]);
        }
    } else {
        let rest = sorted.drop_last();
        lemma_place_chunk_len(rest, chunk);
        if i < sorted.len() {
            lemma_place_chunk_members(rest, chunk, i);
            if place_chunk(rest, chunk)[i] != chunk {
                let j = choose|j: int| 0 <= j < rest.len() && rest[j] == place_chunk(rest, chunk)[i];
                assert(sorted[j] == place_chunk(sorted, chunk)[i]);
            }
        } else {
            assert(sorted[sorted.len() - 1] == place_chunk(sorted, chunk)[i]);
        }
    }
}

/// Placing a chunk keeps the order of the indices.
pub proof fn lemma_place_chunk_ordered(sorted: Seq<ChunkView>, chunk: ChunkView)
    requires
        index_ordered(sorted),
    ensures
        index_ordered(place_chunk(sorted, chunk)),
    decreases sorted.len(),
{
    let placed = place_chunk(sorted, chunk);
    lemma_place_chunk_len(sorted, chunk);
    if sorted.len() == 0 {
    } else if sorted.last().index <= chunk.index {
        assert forall|i: int, j: int| 0 <= i <= j < placed.len() implies placed[i].index
            <= placed[j].index by {
            if j < sorted.len() {
                assert(placed[i] == sorted[i] && placed[j] == sorted[j]);
            } else if i < sorted.len() {
                assert(placed[i] == sorted[i]);
                assert(sorted[i].index <= sorted[sorted.len() - 1].index);
            }
        }
    } else {
        let rest = sorted.drop_last();
        assert(index_ordered(rest)) by {
            assert forall|i: int, j: int| 0 <= i <= j < rest.len() implies rest[i].index
                <= rest[j].index by {
                assert(rest[i] == sorted[i] && rest[j] == sorted[j]);
            }
        }
        lemma_place_chunk_ordered(rest, chunk);
        lemma_place_chunk_len(rest, chunk);
        let inner = place_chunk(rest, chunk);
        assert forall|i: int, j: int| 0 <= i <= j < placed.len() implies placed[i].index
            <= placed[j].index by {
            if j < inner.len() {
                assert(placed[i] == inner[i] && placed[j] == inner[j]);
            } else if i < inner.len() {
                assert(placed[i] == inner[i]);
                lemma_place_chunk_members(rest, chunk, i);
                if inner[i] != chunk {
                    let p = choose|p: int| 0 <= p < rest.len() && rest[p] == inner[i];
                    assert(sorted[p].index <= sorted[sorted.len() - 1].index);
                }
            }
        }
    }
}

/// The chunks come out by ascending index.
pub proof fn lemma_in_index_order_ordered(chunks: Seq<ChunkView>)
    ensures
        index_ordered(in_index_order(chunks)),
        in_index_order(chunks).len() == chunks.len(),
    decreases chunks.len(),
{
    if chunks.len() > 0 {
        lemma_in_index_order_ordered(chunks.drop_last());
        lemma_place_chunk_ordered(in_index_order(chunks.drop_last()), chunks.last());
        lemma_place_chunk_len(in_index_order(chunks.drop_last()), chunks.last());
    }
}

/// Placing a chunk appends it to the chunks of its own index and leaves those
/// of every other index as they were.
pub proof fn lemma_place_chunk_with_index(sorted: Seq<ChunkView>, chunk: ChunkView, k: u32)
    ensures
        with_index(place_chunk(sorted, chunk), k) == if chunk.index == k {
            with_index(sorted, k).push(chunk)
        } else {
            with_index(sorted, k)
        },
    decreases sorted.len(),
{
    let placed = place_chunk(sorted, chunk);
    if sorted.len() == 0 {
        assert(placed.drop_last() =~= Seq::<ChunkView>::empty());
        assert(placed.last() == chunk);
        assert(with_index(placed.drop_last(), k) =~= Seq::<ChunkView>::empty());
    } else if sorted.last().index <= chunk.index {
        assert(placed.drop_last() =~= sorted);
        assert(placed.last() == chunk);
    } else {
        let rest = sorted.drop_last();
        lemma_place_chunk_with_index(rest, chunk, k);
        assert(placed.drop_last() =~= place_chunk(rest, chunk));
        assert(placed.last() == sorted.last());
    }
}

/// Stability: among the chunks of one index, the order of submission stays.
pub proof fn lemma_in_index_order_stable(chunks: Seq<ChunkView>, k: u32)
    ensures
        with_index(in_index_order(chunks), k) == with_index(chunks, k),
    decreases chunks.len(),
{
    if chunks.len() > 0 {
        lemma_in_index_order_stable(chunks.drop_last(), k);
        lemma_place_chunk_with_index(in_index_order(chunks.drop_last()), chunks.last(), k);
    }
}

/// A chunk of `chunks` is among the chunks of its index.
proof fn lemma_with_index_holds(chunks: Seq<ChunkView>, i: int)
    requires
        0 <= i < chunks.len(),
    ensures
        with_index(chunks, chunks[i].index).len() > 0,
    decreases chunks.len(),
{
    if i < chunks.len() - 1 {
        assert(chunks.drop_last()[i] == chunks[i]);
        lemma_with_index_holds(chunks.drop_last(), i);
    }
}

/// Each of the chunks with index `k` is a chunk of `chunks` with that index.
proof fn lemma_with_index_members(chunks: Seq<ChunkView>, k: u32, i: int)
    requires
        0 <= i < with_index(chunks, k).len(),
    ensures
        with_index(chunks, k)[i].index == k,
        exists|j: int| 0 <= j < chunks.len() && chunks[j] == with_index(chunks, k)[i],
    decreases chunks.len(),
{
    if chunks.len() > 0 {
        let rest = chunks.drop_last();
        if i < with_index(rest, k).len() {
            lemma_with_index_members(rest, k, i);
            let j = choose|j: int| 0 <= j < rest.len() && rest[j] == with_index(rest, k)[i];
            assert(chunks[j] == with_index(chunks, k)[i]);
        } else {
            assert(chunks[chunks.len() - 1] == with_index(chunks, k)[i]);
        }
    }
}

/// Two lists in index order that agree, for every index, on the chunks with
/// that index are the same list.
pub proof fn lemma_index_order_unique(x: Seq<ChunkView>, y: Seq<ChunkView>)
    requires
        index_ordered(x),
        index_ordered(y),
        forall|k: u32| with_index(x, k) == with_index(y, k),
    ensures
        x == y,
    decreases x.len() + y.len(),
{
    if x.len() == 0 && y.len() == 0 {
        assert(x =~= y);
    } else if x.len() == 0 {
        lemma_with_index_holds(y, y.len() - 1);
        assert(with_index(x, y.last().index) == with_index(y, y.last().index));
    } else if y.len() == 0 {
        lemma_with_index_holds(x, x.len() - 1);
        assert(with_index(x, x.last().index) == with_index(y, x.last().index));
    } else {
        let kx = x.last().index;
        let ky = y.last().index;
        assert(ky <= kx) by {
            lemma_with_index_holds(y, y.len() - 1);
            assert(with_index(x, ky) == with_index(y, ky));
            lemma_with_index_members(x, ky, 0);
            let j = choose|j: int| 0 <= j < x.len() && x[j] == with_index(x, ky)[0];
            assert(x[j].index <= x[x.len() - 1].index);
        }
        assert(kx <= ky) by {
            lemma_with_index_holds(x, x.len() - 1);
            assert(with_index(x, kx) == with_index(y, kx));
            lemma_with_index_members(y, kx, 0);
            let j = choose|j: int| 0 <= j < y.len() && y[j] == with_index(y, kx)[0];
            assert(y[j].index <= y[y.len() - 1].index);
        }
        assert(with_index(x, kx) == with_index(y, kx));
        assert(with_index(x, kx).last() == x.last());
        assert(with_index(y, kx).last() == y.last());
        let xr = x.drop_last();
        let yr = y.drop_last();
        assert(index_ordered(xr)) by {
            assert forall|i: int, j: int| 0 <= i <= j < xr.len() implies xr[i].index
                <= xr[j].index by {
                assert(xr[i] == x[i] && xr[j] == x[j]);
            }
        }
        assert(index_ordered(yr)) by {
            assert forall|i: int, j: int| 0 <= i <= j < yr.len() implies yr[i].index
                <= yr[j].index by {
                assert(yr[i] == y[i] && yr[j] == y[j]);
            }
        }
        assert forall|k: u32| with_index(xr, k) == with_index(yr, k) by {
            assert(with_index(x, k) == with_index(y, k));
            if k == kx {
                assert(with_index(xr, k) =~= with_index(x, k).drop_last());
                assert(with_index(yr, k) =~= with_index(y, k).drop_last());
            }
        }
        lemma_index_order_unique(xr, yr);
        assert(x =~= xr.push(x.last()));
        assert(y =~= yr.push(y.last()));
    }
}

/// The order that `in_index_order` gives is the only one that is ascending
/// by index and keeps, for every index, the chunks with that index in the
/// order of submission.
pub proof fn lemma_in_index_order_characterized(chunks: Seq<ChunkView>, ordered: Seq<ChunkView>)
    requires
        index_ordered(ordered),
        forall|k: u32| with_index(ordered, k) == with_index(chunks, k),
    ensures
        ordered == in_index_order(chunks),
{
    lemma_in_index_order_ordered(chunks);
    assert forall|k: u32| with_index(ordered, k) == with_index(in_index_order(chunks), k) by {
        lemma_in_index_order_stable(chunks, k);
    }
    lemma_index_order_unique(ordered, in_index_order(chunks));
}

/// No two chunks of `chunks` share an index.
pub open spec fn distinct_indices(chunks: Seq<ChunkView>) -> bool {
    forall|i: int, j: int| 0 <= i < j < chunks.len() ==> chunks[i].index != chunks[j].index
}

/// Where no two chunks share an index, the chunks with index `k` are the one
/// chunk that has it, or none.
proof fn lemma_with_index_of_distinct(chunks: Seq<ChunkView>, k: u32)
    requires
        distinct_indices(chunks),
    ensures
        (forall|i: int| 0 <= i < chunks.len() ==> chunks[i].index != k) ==> with_index(chunks, k)
            == Seq::<ChunkView>::empty(),
        forall|i: int|
            0 <= i < chunks.len() && chunks[i].index == k ==> with_index(chunks, k)
                == seq![#[trigger] chunks[i]],
    decreases chunks.len(),
{
    if chunks.len() > 0 {
        let rest = chunks.drop_last();
        assert(distinct_indices(rest)) by {
            assert forall|i: int, j: int| 0 <= i < j < rest.len() implies rest[i].index
                != rest[j].index by {
                assert(rest[i] == chunks[i] && rest[j] == chunks[j]);
            }
        }
        lemma_with_index_of_distinct(rest, k);
        if chunks.last().index == k {
            assert forall|i: int| 0 <= i < rest.len() implies rest[i].index != k by {
                assert(rest[i] == chunks[i]);
                assert(chunks[i].index != chunks[chunks.len() - 1].index);
            }
            assert(with_index(chunks, k) =~= seq![chunks.last()]);
            assert forall|i: int| 0 <= i < chunks.len() && chunks[i].index == k implies with_index(
                chunks,
                k,
            ) == seq![#[trigger] chunks[i]] by {
                if i < chunks.len() - 1 {
                    assert(rest[i] == chunks[i]);
                }
            }
        } else {
            if forall|i: int| 0 <= i < chunks.len() ==> chunks[i].index != k {
                assert forall|i: int| 0 <= i < rest.len() implies rest[i].index != k by {
                    assert(rest[i] == chunks[i]);
                }
            }
            assert forall|i: int| 0 <= i < chunks.len() && chunks[i].index == k implies with_index(
                chunks,
                k,
            ) == seq![#[trigger] chunks[i]] by {
                assert(rest[i] == chunks[i]);
            }
        }
    }
}

/// The merged transcript depends only on which chunks carry which index and,
/// among chunks of one index, on their order of submission.
pub proof fn merge_depends_on_index_classes(a: Seq<ChunkView>, b: Seq<ChunkView>)
    requires
        forall|k: u32| with_index(a, k) == with_index(b, k),
    ensures
        in_index_order(a) == in_index_order(b),
        merged_text(a) == merged_text(b),
{
    lemma_in_index_order_ordered(a);
    assert forall|k: u32| with_index(in_index_order(a), k) == with_index(b, k) by {
        lemma_in_index_order_stable(a, k);
    }
    lemma_in_index_order_characterized(b, in_index_order(a));
}

/// A list that holds the same chunks as one without a repeated index has no
/// repeated index either.
pub proof fn lemma_distinct_indices_of_same_chunks(a: Seq<ChunkView>, b: Seq<ChunkView>)
    requires
        a.to_multiset() == b.to_multiset(),
        distinct_indices(a),
    ensures
        distinct_indices(b),
{
    broadcast use vstd::seq_lib::group_to_multiset_ensures;

    assert(a.no_duplicates()) by {
        assert forall|i: int, j: int| 0 <= i < a.len() && 0 <= j < a.len() && i != j implies a[i]
            != a[j] by {
            if i < j {
                assert(a[i].index != a[j].index);
            } else {
                assert(a[j].index != a[i].index);
            }
        }
    }
    a.lemma_multiset_has_no_duplicates();
    b.lemma_multiset_has_no_duplicates_conv();
    assert forall|i: int, j: int| 0 <= i < j < b.len() implies b[i].index != b[j].index by {
        assert(b[i] != b[j]);
        assert(b.to_multiset().contains(b[i]));
        assert(b.to_multiset().contains(b[j]));
        assert(a.contains(b[i]));
        assert(a.contains(b[j]));
        let p = choose|p: int| 0 <= p < a.len() && a[p] == b[i];
        let q = choose|q: int| 0 <= q < a.len() && a[q] == b[j];
        if p < q {
            assert(a[p].index != a[q].index);
        } else if q < p {
            assert(a[q].index != a[p].index);
        }
    }
}

/// The order of submission does not matter: two sessions that received the
/// same chunks, each index at most once, merge to the same transcript.
pub proof fn merge_ignores_submission_order(a: Seq<ChunkView>, b: Seq<ChunkView>)
    requires
        a.to_multiset() == b.to_multiset(),
        distinct_indices(a),
    ensures
        in_index_order(a) == in_index_order(b),
        merged_text(a) == merged_text(b),
{
    broadcast use vstd::seq_lib::group_to_multiset_ensures;

    lemma_distinct_indices_of_same_chunks(a, b);

    assert forall|k: u32| with_index(a, k) == with_index(b, k) by {
        lemma_with_index_of_distinct(a, k);
        lemma_with_index_of_distinct(b, k);
        if exists|i: int| 0 <= i < a.len() && a[i].index == k {
            let i = choose|i: int| 0 <= i < a.len() && a[i].index == k;
            assert(a.to_multiset().contains(a[i]));
            assert(b.contains(a[i]));
            let j = choose|j: int| 0 <= j < b.len() && b[j] == a[i];
            assert(with_index(b, k) == seq![b[j]]);
            assert(with_index(a, k) == seq![a[i]]);
        } else if exists|j: int| 0 <= j < b.len() && b[j].index == k {
            let j = choose|j: int| 0 <= j < b.len() && b[j].index == k;
            assert(b.to_multiset().contains(b[j]));
            assert(a.contains(b[j]));
            let i = choose|i: int| 0 <= i < a.len() && a[i] == b[j];
            assert(a[i].index == k);
        } else {
        }
    }
    merge_depends_on_index_classes(a, b);
}

/// Putting `chunk` at position `at` is what `place_chunk` does, where every
/// chunk before `at` has an index not above its own and every chunk from `at`
/// on has a greater one.
proof fn lemma_place_chunk_at(sorted: Seq<ChunkView>, chunk: ChunkView, at: int)
    requires
        0 <= at <= sorted.len(),
        at > 0 ==> sorted[at - 1].index <= chunk.index,
        forall|i: int| at <= i < sorted.len() ==> sorted[i].index > chunk.index,
    ensures
        place_chunk(sorted, chunk) == sorted.insert(at, chunk),
    decreases sorted.len() - at,
{
    if at == sorted.len() {
        assert(sorted.insert(at, chunk) =~= sorted.push(chunk));
        if sorted.len() == 0 {
            assert(sorted.push(chunk) =~= seq![chunk]);
        }
    } else {
        let rest = sorted.drop_last();
        assert(sorted.last().index > chunk.index);
        assert forall|i: int| at <= i < rest.len() implies rest[i].index > chunk.index by {
            assert(rest[i] == sorted[i]);
        }
        if at > 0 {
            assert(rest[at - 1] == sorted[at - 1]);
        }
        lemma_place_chunk_at(rest, chunk, at);
        assert(rest.insert(at, chunk).push(sorted.last()) =~= sorted.insert(at, chunk));
    }
}

/// Sorts the chunks by index, keeping the order of submission among chunks of
/// one index.
pub fn sort_chunks(chunks: Vec<Chunk>) -> (sorted: Vec<Chunk>)
    ensures
        chunk_views(sorted@) == in_index_order(chunk_views(chunks@)),
{
    let ghost all = chunk_views(chunks@);
    let mut sorted: Vec<Chunk> = Vec::new();
    for chunk in it: chunks
        invariant
            it.seq() == chunks@,
            all == chunk_views(chunks@),
            chunk_views(sorted@) == in_index_order(all.take(it.index() as int)),
    {
        let mut at: usize = sorted.len();
        while at > 0 && sorted[at - 1].index > chunk.index
            invariant
                at <= sorted.len(),
                forall|i: int| at <= i < sorted.len() ==> sorted@[i].index > chunk.index,
            decreases at,
        {
            at -= 1;
        }
        proof {
            let before = chunk_views(sorted@);
            let done = all.take(it.index() as int);
            let next = all.take(it.index() + 1);
            assert(next.drop_last() =~= done);
            assert(next.last() == chunk@);
            assert forall|i: int| at <= i < before.len() implies before[i].index
                > chunk@.index by {
                assert(before[i] == sorted@[i]@);
            }
            if at > 0 {
                assert(before[at - 1] == sorted@[at - 1]@);
            }
            lemma_place_chunk_at(before, chunk@, at as int);
            assert(chunk_views(sorted@.insert(at as int, chunk)) =~= before.insert(
                at as int,
                chunk@,
            ));
        }
        sorted.insert(at, chunk);
    }
    proof {
        assert(all.take(chunks@.len() as int) =~= all);
    }
    sorted
}

/// Joins the texts of `chunks`, in their order there, by single spaces.
pub fn join_texts(chunks: &Vec<Chunk>) -> (text: String)
    ensures
        text@ == joined(texts_of(chunk_views(chunks@))),
{
    let ghost texts = texts_of(chunk_views(chunks@));
    let mut text = String::new();
    let mut i: usize = 0;
    while i < chunks.len()
        invariant
            i <= chunks.len(),
            texts == texts_of(chunk_views(chunks@)),
            text@ == joined(texts.take(i as int)),
        decreases chunks.len() - i,
    {
        proof {
            let next = texts.take(i + 1);
            assert(next.drop_last() =~= texts.take(i as int));
            assert(next.last() == chunks@[i as int].text@);
            if i == 0 {
                assert(joined(next) == next[0]);
                assert(text@ + chunks@[i as int].text@ =~= next[0]);
            }
        }
        if i > 0 {
            text.append(" ");
            proof {
                reveal_strlit(" ");
                assert(" "@ =~= seq![' ']);
            }
        }
        text.append(chunks[i].text.as_str());
        i += 1;
    }
    proof {
        assert(texts.take(chunks@.len() as int) =~= texts);
    }
    text
}

/// The transcript of a session that received `chunks`.
pub fn merge_chunks(chunks: Vec<Chunk>) -> (text: String)
    ensures
        text@ == merged_text(chunk_views(chunks@)),
{
    let sorted = sort_chunks(chunks);
    join_texts(&sorted)
}

} // verus!
