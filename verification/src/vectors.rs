//! The vector stores of the MAGI memory: chunks of text with their
//! embeddings, the selection of the best ones for a query, and the
//! session and query stores built on them. Embeddings are held as the bit
//! patterns of their `f32` components; the similarities, which are
//! floating point, are computed by the caller and handed in as integer
//! keys that order them.
use vstd::prelude::*;
use crate::ranking::{is_top_k, rank_top_k};
use crate::text::{concat2, concat3, contains, dec, str_contains, u64_to_dec, views};

verus! {

/// The decimal numeral of an integer, with a `-` when it is negative.
pub open spec fn signed_dec(n: int) -> Seq<char> {
    if n < 0 {
        "-"@ + dec((-n) as nat)
    } else {
        dec(n as nat)
    }
}

/// The decimal numeral of `n`.
pub fn i64_to_dec(n: i64) -> (s: String)
    ensures
        s@ == signed_dec(n as int),
{
    if n < 0 {
        let m: u64 = if n == i64::MIN {
            9223372036854775808u64
        } else {
            (-n) as u64
        };
        let d = u64_to_dec(m);
        concat2("-", d.as_str())
    } else {
        u64_to_dec(n as u64)
    }
}

/// One stored chunk: its identifier, text, source, embedding (bit
/// patterns) and the second it was stored at.
#[derive(Debug, Clone)]
pub struct VectorChunk {
    pub id: String,
    pub text: String,
    pub source: String,
    pub embedding: Vec<u32>,
    pub timestamp: i64,
}

/// A chunk as specifications see it.
pub ghost struct ChunkView {
    pub id: Seq<char>,
    pub text: Seq<char>,
    pub source: Seq<char>,
    pub embedding: Seq<u32>,
    pub timestamp: i64,
}

impl View for VectorChunk {
    type V = ChunkView;

    open spec fn view(&self) -> ChunkView {
        ChunkView {
            id: self.id@,
            text: self.text@,
            source: self.source@,
            embedding: self.embedding@,
            timestamp: self.timestamp,
        }
    }
}

/// The views of a list of chunks.
pub open spec fn chunk_views(s: Seq<VectorChunk>) -> Seq<ChunkView> {
    s.map_values(|c: VectorChunk| c@)
}

/// The identifier of a chunk from `source` stored at nanosecond `nanos`.
pub open spec fn chunk_id(source: Seq<char>, nanos: i64) -> Seq<char> {
    source + ":"@ + signed_dec(nanos as int)
}

/// A store of chunks, in the order they were stored.
#[derive(Debug)]
pub struct VectorStore {
    chunks: Vec<VectorChunk>,
}

impl VectorStore {
    /// The stored chunks.
    pub closed spec fn contents(&self) -> Seq<ChunkView> {
        chunk_views(self.chunks@)
    }

    /// An empty store.
    pub fn new() -> (s: Self)
        ensures
            s.contents() == Seq::<ChunkView>::empty(),
    {
        let s = VectorStore { chunks: Vec::new() };
        assert(chunk_views(s.chunks@) =~= Seq::<ChunkView>::empty());
        s
    }

    /// A store holding `chunks` (as read back from disk).
    pub fn from_chunks(chunks: Vec<VectorChunk>) -> (s: Self)
        ensures
            s.contents() == chunk_views(chunks@),
    {
        VectorStore { chunks }
    }

    /// The stored chunks.
    pub fn chunks(&self) -> (c: &Vec<VectorChunk>)
        ensures
            chunk_views(c@) == self.contents(),
    {
        &self.chunks
    }

    /// Stores `text` from `source` with its embedding, at nanosecond
    /// `nanos` and second `secs` of the clock; its identifier is the source
    /// and the nanosecond.
    pub fn ingest(&mut self, text: &str, source: &str, embedding: Vec<u32>, nanos: i64, secs: i64)
        ensures
            final(self).contents() == old(self).contents().push(
                ChunkView {
                    id: chunk_id(source@, nanos),
                    text: text@,
                    source: source@,
                    embedding: embedding@,
                    timestamp: secs,
                },
            ),
    {
        let n = i64_to_dec(nanos);
        let id = concat3(source, ":", n.as_str());
        let ghost e = embedding@;
        self.chunks.push(
            VectorChunk {
                id,
                text: text.to_owned(),
                source: source.to_owned(),
                embedding,
                timestamp: secs,
            },
        );
        assert(chunk_views(self.chunks@) =~= chunk_views(old(self).chunks@).push(
            ChunkView {
                id: chunk_id(source@, nanos),
                text: text@,
                source: source@,
                embedding: e,
                timestamp: secs,
            },
        ));
    }

    /// The positions of the best `top_k` chunks for a query, best first,
    /// equal similarities in the order they were stored. `keys[i]` orders
    /// the similarity of chunk `i` to the query and `passes[i]` says
    /// whether it reaches the threshold. Nothing is found for an empty
    /// query or in an empty store.
    pub fn search(&self, keys: &Vec<i64>, passes: &Vec<bool>, query_empty: bool, top_k: usize) -> (r:
        Vec<usize>)
        requires
            keys@.len() == self.contents().len(),
            passes@.len() == self.contents().len(),
        ensures
            query_empty || self.contents().len() == 0 ==> r@.len() == 0,
            !query_empty && self.contents().len() > 0 ==> is_top_k(keys@, passes@, top_k as nat, r@),
    {
        if query_empty || self.chunks.len() == 0 {
            return Vec::new();
        }
        rank_top_k(keys, passes, top_k)
    }

    /// Drops every chunk.
    pub fn clear(&mut self)
        ensures
            final(self).contents() == Seq::<ChunkView>::empty(),
    {
        self.chunks = Vec::new();
        assert(chunk_views(self.chunks@) =~= Seq::<ChunkView>::empty());
    }

    /// The number of chunks.
    pub fn count(&self) -> (n: usize)
        ensures
            n == self.contents().len(),
    {
        self.chunks.len()
    }
}

/// The vectors gathered for one search or consensus round.
#[derive(Debug)]
pub struct QueryVectorDb {
    pub inner: VectorStore,
}

impl QueryVectorDb {
    /// An empty store.
    pub fn new() -> (d: Self)
        ensures
            d.inner.contents() == Seq::<ChunkView>::empty(),
    {
        QueryVectorDb { inner: VectorStore::new() }
    }

    /// Stores `text` from `source` with its embedding, at nanosecond
    /// `nanos` and second `secs` of the clock.
    pub fn ingest(&mut self, text: &str, source: &str, embedding: Vec<u32>, nanos: i64, secs: i64)
        ensures
            final(self).inner.contents() == old(self).inner.contents().push(
                ChunkView {
                    id: chunk_id(source@, nanos),
                    text: text@,
                    source: source@,
                    embedding: embedding@,
                    timestamp: secs,
                },
            ),
    {
        self.inner.ingest(text, source, embedding, nanos, secs);
    }

    /// The positions of the best `top_k` chunks for a query (see
    /// `VectorStore::search`).
    pub fn search(&self, keys: &Vec<i64>, passes: &Vec<bool>, query_empty: bool, top_k: usize) -> (r:
        Vec<usize>)
        requires
            keys@.len() == self.inner.contents().len(),
            passes@.len() == self.inner.contents().len(),
        ensures
            query_empty || self.inner.contents().len() == 0 ==> r@.len() == 0,
            !query_empty && self.inner.contents().len() > 0 ==> is_top_k(
                keys@,
                passes@,
                top_k as nat,
                r@,
            ),
    {
        self.inner.search(keys, passes, query_empty, top_k)
    }

    /// The number of chunks.
    pub fn count(&self) -> (n: usize)
        ensures
            n == self.inner.contents().len(),
    {
        self.inner.count()
    }

    /// Drops every chunk.
    pub fn clear(&mut self)
        ensures
            final(self).inner.contents() == Seq::<ChunkView>::empty(),
    {
        self.inner.clear();
    }
}

/// The vectors of a session: its context and answers, kept across
/// queries and on disk.
#[derive(Debug)]
pub struct SessionVectorDb {
    pub inner: VectorStore,
}

impl SessionVectorDb {
    /// An empty store.
    pub fn new() -> (d: Self)
        ensures
            d.inner.contents() == Seq::<ChunkView>::empty(),
    {
        SessionVectorDb { inner: VectorStore::new() }
    }

    /// Stores `text` from `source` with its embedding, at nanosecond
    /// `nanos` and second `secs` of the clock.
    pub fn ingest(&mut self, text: &str, source: &str, embedding: Vec<u32>, nanos: i64, secs: i64)
        ensures
            final(self).inner.contents() == old(self).inner.contents().push(
                ChunkView {
                    id: chunk_id(source@, nanos),
                    text: text@,
                    source: source@,
                    embedding: embedding@,
                    timestamp: secs,
                },
            ),
    {
        self.inner.ingest(text, source, embedding, nanos, secs);
    }

    /// The positions of the best `top_k` chunks for a query (see
    /// `VectorStore::search`).
    pub fn search(&self, keys: &Vec<i64>, passes: &Vec<bool>, query_empty: bool, top_k: usize) -> (r:
        Vec<usize>)
        requires
            keys@.len() == self.inner.contents().len(),
            passes@.len() == self.inner.contents().len(),
        ensures
            query_empty || self.inner.contents().len() == 0 ==> r@.len() == 0,
            !query_empty && self.inner.contents().len() > 0 ==> is_top_k(
                keys@,
                passes@,
                top_k as nat,
                r@,
            ),
    {
        self.inner.search(keys, passes, query_empty, top_k)
    }

    /// The number of chunks.
    pub fn count(&self) -> (n: usize)
        ensures
            n == self.inner.contents().len(),
    {
        self.inner.count()
    }

    /// Drops every chunk.
    pub fn clear(&mut self)
        ensures
            final(self).inner.contents() == Seq::<ChunkView>::empty(),
    {
        self.inner.clear();
    }
}

// ---------------------------------------------------------------------
// Feedback
// ---------------------------------------------------------------------

/// The chunks a comment of user feedback is about: those whose text holds
/// it, none for an empty comment.
pub open spec fn feedback_target(text: Seq<char>, comment: Seq<char>) -> bool {
    comment.len() > 0 && contains(text, comment)
}

/// The positions of the chunk texts a feedback comment is about.
pub fn feedback_targets(texts: &Vec<String>, comment: &str) -> (r: Vec<usize>)
    ensures
        forall|k: int| 0 <= k < r@.len() ==> (#[trigger] r@[k]) < texts@.len(),
        forall|k: int, l: int| 0 <= k < l < r@.len() ==> #[trigger] r@[k] < #[trigger] r@[l],
        forall|i: int|
            0 <= i < texts@.len() ==> (r@.contains(i as usize) <==> feedback_target(
                #[trigger] texts@[i]@,
                comment@,
            )),
{
    let mut r: Vec<usize> = Vec::new();
    if comment.is_empty() {
        assert forall|i: int| 0 <= i < texts@.len() implies !#[trigger] r@.contains(i as usize) by {}
        return r;
    }
    let mut i: usize = 0;
    while i < texts.len()
        invariant
            i <= texts@.len(),
            comment@.len() > 0,
            forall|k: int| 0 <= k < r@.len() ==> (#[trigger] r@[k]) < i,
            forall|k: int, l: int| 0 <= k < l < r@.len() ==> #[trigger] r@[k] < #[trigger] r@[l],
            forall|j: int|
                0 <= j < i ==> (r@.contains(j as usize) <==> feedback_target(
                    #[trigger] texts@[j]@,
                    comment@,
                )),
        decreases texts.len() - i,
    {
        let ghost before = r@;
        if str_contains(texts[i].as_str(), comment) {
            r.push(i);
            assert forall|j: int| 0 <= j < texts@.len() && j != i implies (#[trigger] r@.contains(
                j as usize,
            ) == before.contains(j as usize)) by {
                if r@.contains(j as usize) {
                    let k = choose|k: int| 0 <= k < r@.len() && r@[k] == j as usize;
                    assert(before[k] == j as usize);
                }
                if before.contains(j as usize) {
                    let k = choose|k: int| 0 <= k < before.len() && before[k] == j as usize;
                    assert(r@[k] == j as usize);
                }
            }
            assert(r@[before.len() as int] == i);
        }
        i += 1;
    }
    r
}

} // verus!
