//! The streaming checksum: one byte, the XOR of every byte of a stream.
//!
//! XOR is associative and commutative, so the checksum of a stream does not
//! depend on where the stream is cut into chunks, nor on the order of its
//! bytes. That is what allows it to be computed chunk by chunk, as the bytes
//! arrive, without ever holding the whole stream.

use vstd::prelude::*;
use vstd::seq_lib::{commutative_foldl, lemma_fold_left_permutation};
use vstd::slice::slice_subrange;
use crate::error::{BenchError, ErrorKind};

verus! {

/// The number of bytes that a driver reads at a time.
pub const CHUNK_SIZE: usize = 1024;

/// The checksum of `bytes`: the XOR of all of them, zero for the empty sequence.
pub open spec fn xor_fold(bytes: Seq<u8>) -> u8
    decreases bytes.len(),
{
    if bytes.len() == 0 {
        0u8
    } else {
        xor_fold(bytes.drop_last()) ^ bytes.last()
    }
}

/// The checksum of a stream that arrives in chunks, folded chunk by chunk
/// into an accumulator that starts at `start`.
pub open spec fn fold_chunks(start: u8, chunks: Seq<Seq<u8>>) -> u8
    decreases chunks.len(),
{
    if chunks.len() == 0 {
        start
    } else {
        fold_chunks(start, chunks.drop_last()) ^ xor_fold(chunks.last())
    }
}

/// Computes the checksum of `bytes` in a single pass.
pub fn hash(bytes: &[u8]) -> (checksum: u8)
    ensures
        checksum == xor_fold(bytes@),
{
    let mut acc: u8 = 0;
    let mut i: usize = 0;
    while i < bytes.len()
        invariant
            i <= bytes@.len(),
            acc == xor_fold(bytes@.take(i as int)),
        decreases bytes@.len() - i,
    {
        proof {
            assert(bytes@.take(i + 1).drop_last() =~= bytes@.take(i as int));
        }
        acc = acc ^ bytes[i];
        i = i + 1;
    }
    proof {
        assert(bytes@.take(i as int) =~= bytes@);
    }
    acc
}

/// The accumulator of a checksum under way. Its view is the checksum of all
/// that it has been fed so far.
#[derive(Clone, Copy, Debug, PartialEq, Eq)]
pub struct ChecksumReducer {
    accumulator: u8,
}

impl View for ChecksumReducer {
    type V = u8;

    closed spec fn view(&self) -> u8 {
        self.accumulator
    }
}

impl ChecksumReducer {
    /// A reducer that has seen nothing.
    pub fn new() -> (reducer: ChecksumReducer)
        ensures
            reducer@ == 0,
    {
        ChecksumReducer { accumulator: 0 }
    }

    /// Folds one more chunk in.
    pub fn update(&mut self, chunk: &[u8])
        ensures
            final(self)@ == old(self)@ ^ xor_fold(chunk@),
    {
        let folded = hash(chunk);
        self.accumulator = self.accumulator ^ folded;
    }

    /// The checksum of all that was fed so far.
    pub fn checksum(&self) -> (checksum: u8)
        ensures
            checksum == self@,
    {
        self.accumulator
    }
}

/// Computes the checksum of `bytes` as a stream: `chunk_size` bytes at a
/// time, the last chunk being what is left. A chunk size of zero cuts
/// nowhere: the bytes are then one chunk. The result is that of [`hash`],
/// whatever the chunk size.
pub fn hash_chunked(bytes: &[u8], chunk_size: usize) -> (checksum: u8)
    ensures
        checksum == xor_fold(bytes@),
{
    let step: usize = if chunk_size == 0 {
        bytes.len()
    } else {
        chunk_size
    };
    let mut reducer = ChecksumReducer::new();
    let mut offset: usize = 0;
    proof {
        lemma_xor_zero();
    }
    while offset < bytes.len()
        invariant
            step > 0 || bytes@.len() == 0,
            offset <= bytes@.len(),
            reducer@ == xor_fold(bytes@.take(offset as int)),
        decreases bytes@.len() - offset,
    {
        let end: usize = if bytes.len() - offset < step {
            bytes.len()
        } else {
            offset + step
        };
        let chunk = slice_subrange(bytes, offset, end);
        proof {
            lemma_xor_fold_concat(bytes@.take(offset as int), chunk@);
            assert(bytes@.take(offset as int) + chunk@ =~= bytes@.take(end as int));
        }
        reducer.update(chunk);
        offset = end;
    }
    proof {
        assert(bytes@.take(offset as int) =~= bytes@);
    }
    reducer.checksum()
}

/// One completed read of a stream.
pub enum ReadEvent<'a> {
    /// The bytes that the read delivered. None at all means that the stream
    /// has ended.
    Data(&'a [u8]),
    /// The read failed; carries the detail.
    Failed(String),
}

/// What a completed read amounts to: the bytes it delivered, or its failure.
pub enum StreamEvent {
    Data(Seq<u8>),
    Failed(String),
}

impl<'a> View for ReadEvent<'a> {
    type V = StreamEvent;

    open spec fn view(&self) -> StreamEvent {
        match *self {
            ReadEvent::Data(bytes) => StreamEvent::Data(bytes@),
            ReadEvent::Failed(detail) => StreamEvent::Failed(detail),
        }
    }
}

/// The hashing of a stream that is read piece by piece.
///
/// It ends in [`StreamHash::Done`] only when the end of the stream was seen.
/// A failed read ends it in [`StreamHash::Failed`]: the checksum of the part
/// that was read is never given out as if it were that of the whole.
#[derive(Clone, Debug, PartialEq, Eq)]
pub enum StreamHash {
    /// More is to be read; holds the checksum of what was read so far.
    Reading(u8),
    /// The stream has ended; holds the checksum of all of it.
    Done(u8),
    /// A read failed.
    Failed(BenchError),
}

impl StreamHash {
    /// The state after a completed read. Once the hashing has ended, in
    /// either way, nothing changes it any more.
    pub open spec fn after(self, event: StreamEvent) -> StreamHash {
        match self {
            StreamHash::Reading(so_far) => match event {
                StreamEvent::Data(bytes) => if bytes.len() == 0 {
                    StreamHash::Done(so_far)
                } else {
                    StreamHash::Reading(so_far ^ xor_fold(bytes))
                },
                StreamEvent::Failed(detail) => StreamHash::Failed(
                    BenchError { kind: ErrorKind::Io, detail },
                ),
            },
            _ => self,
        }
    }

    /// The state after a sequence of completed reads, taken in order.
    pub open spec fn after_all(self, events: Seq<StreamEvent>) -> StreamHash
        decreases events.len(),
    {
        if events.len() == 0 {
            self
        } else {
            self.after_all(events.drop_last()).after(events.last())
        }
    }

    /// The hashing of a stream of which nothing has been read yet.
    pub fn new() -> (state: StreamHash)
        ensures
            state == StreamHash::Reading(0),
    {
        StreamHash::Reading(0)
    }

    /// Takes one completed read.
    pub fn step(self, event: ReadEvent<'_>) -> (next: StreamHash)
        ensures
            next == self.after(event@),
    {
        match self {
            StreamHash::Reading(so_far) => match event {
                ReadEvent::Data(bytes) => {
                    if bytes.len() == 0 {
                        StreamHash::Done(so_far)
                    } else {
                        StreamHash::Reading(so_far ^ hash(bytes))
                    }
                },
                ReadEvent::Failed(detail) => StreamHash::Failed(
                    BenchError::new(ErrorKind::Io, detail),
                ),
            },
            other => other,
        }
    }

    /// Whether another read is wanted.
    pub fn wants_more(&self) -> (more: bool)
        ensures
            more == (*self is Reading),
    {
        match self {
            StreamHash::Reading(_) => true,
            _ => false,
        }
    }
}

/// The reads of a stream that delivers `chunks`, one after the other.
pub open spec fn data_events(chunks: Seq<Seq<u8>>) -> Seq<StreamEvent> {
    Seq::new(chunks.len(), |i: int| StreamEvent::Data(chunks[i]))
}

/// Zero is neutral for XOR.
pub proof fn lemma_xor_zero()
    ensures
        forall|a: u8| #[trigger] (a ^ 0u8) == a,
        forall|a: u8| #[trigger] (0u8 ^ a) == a,
{
    assert(forall|a: u8| #[trigger] (a ^ 0u8) == a) by (bit_vector);
    assert(forall|a: u8| #[trigger] (0u8 ^ a) == a) by (bit_vector);
}

/// XOR is associative.
pub proof fn lemma_xor_associative(a: u8, b: u8, c: u8)
    ensures
        (a ^ b) ^ c == a ^ (b ^ c),
{
    assert((a ^ b) ^ c == a ^ (b ^ c)) by (bit_vector);
}

/// XOR is commutative.
pub proof fn lemma_xor_commutative(a: u8, b: u8)
    ensures
        a ^ b == b ^ a,
{
    assert(a ^ b == b ^ a) by (bit_vector);
}

/// The checksum of two sequences joined is the XOR of their checksums: a
/// stream may be cut anywhere.
pub proof fn lemma_xor_fold_concat(front: Seq<u8>, back: Seq<u8>)
    ensures
        xor_fold(front + back) == xor_fold(front) ^ xor_fold(back),
    decreases back.len(),
{
    if back.len() == 0 {
        assert(front + back =~= front);
        lemma_xor_zero();
    } else {
        assert((front + back).drop_last() =~= front + back.drop_last());
        assert((front + back).last() == back.last());
        lemma_xor_fold_concat(front, back.drop_last());
        lemma_xor_associative(xor_fold(front), xor_fold(back.drop_last()), back.last());
    }
}

/// Swapping the two parts of a stream leaves its checksum as it was.
pub proof fn lemma_xor_fold_swap(front: Seq<u8>, back: Seq<u8>)
    ensures
        xor_fold(front + back) == xor_fold(back + front),
{
    lemma_xor_fold_concat(front, back);
    lemma_xor_fold_concat(back, front);
    lemma_xor_commutative(xor_fold(front), xor_fold(back));
}

/// Folding a stream chunk by chunk gives the checksum of the whole stream
/// folded in one pass, however it is cut into chunks and wherever the
/// accumulator starts.
pub proof fn lemma_fold_chunks_is_xor_fold(start: u8, chunks: Seq<Seq<u8>>)
    ensures
        fold_chunks(start, chunks) == start ^ xor_fold(chunks.flatten()),
        fold_chunks(0, chunks) == xor_fold(chunks.flatten()),
    decreases chunks.len(),
{
    lemma_xor_zero();
    chunks.lemma_flatten_and_flatten_alt_are_equivalent();
    if chunks.len() == 0 {
    } else {
        let rest = chunks.drop_last();
        rest.lemma_flatten_and_flatten_alt_are_equivalent();
        lemma_fold_chunks_is_xor_fold(start, rest);
        lemma_fold_chunks_is_xor_fold(0, rest);
        assert(chunks.flatten() =~= rest.flatten() + chunks.last());
        lemma_xor_fold_concat(rest.flatten(), chunks.last());
        lemma_xor_associative(start, xor_fold(rest.flatten()), xor_fold(chunks.last()));
    }
}

/// Two ways of cutting the same stream into chunks give the same checksum.
pub proof fn lemma_chunking_does_not_matter(one: Seq<Seq<u8>>, other: Seq<Seq<u8>>)
    requires
        one.flatten() == other.flatten(),
    ensures
        fold_chunks(0, one) == fold_chunks(0, other),
{
    lemma_fold_chunks_is_xor_fold(0, one);
    lemma_fold_chunks_is_xor_fold(0, other);
}

/// Two streams that hold the same bytes, each as often as the other, have
/// the same checksum, in whatever order the bytes come.
pub proof fn lemma_xor_fold_ignores_order(one: Seq<u8>, other: Seq<u8>)
    requires
        one.to_multiset() == other.to_multiset(),
    ensures
        xor_fold(one) == xor_fold(other),
{
    let f = |acc: u8, byte: u8| acc ^ byte;
    assert(commutative_foldl(f)) by {
        assert forall|x: u8, y: u8, v: u8| #[trigger] f(f(v, x), y) == f(f(v, y), x) by {
            assert((v ^ x) ^ y == (v ^ y) ^ x) by (bit_vector);
        }
    }
    lemma_fold_left_permutation(one, other, f, 0u8);
    lemma_xor_fold_is_fold_left(one);
    lemma_xor_fold_is_fold_left(other);
}

/// The checksum is a left fold of XOR from zero.
proof fn lemma_xor_fold_is_fold_left(bytes: Seq<u8>)
    ensures
        xor_fold(bytes) == bytes.fold_left(0u8, |acc: u8, byte: u8| acc ^ byte),
    decreases bytes.len(),
{
    if bytes.len() > 0 {
        lemma_xor_fold_is_fold_left(bytes.drop_last());
    }
}

/// A stream that is read to its end is hashed to the checksum of all its
/// bytes: after the reads that deliver the chunks, none of them empty, the
/// hashing still wants more and holds the checksum so far, and the read that
/// delivers nothing ends it with the checksum of the whole.
pub proof fn lemma_stream_hash_of_whole_stream(chunks: Seq<Seq<u8>>)
    requires
        forall|i: int| 0 <= i < chunks.len() ==> (#[trigger] chunks[i]).len() > 0,
    ensures
        StreamHash::Reading(0).after_all(data_events(chunks)) == StreamHash::Reading(
            xor_fold(chunks.flatten()),
        ),
        StreamHash::Reading(0).after_all(data_events(chunks)).after(
            StreamEvent::Data(Seq::empty()),
        ) == StreamHash::Done(xor_fold(chunks.flatten())),
    decreases chunks.len(),
{
    let start = StreamHash::Reading(0);
    lemma_fold_chunks_is_xor_fold(0, chunks);
    if chunks.len() == 0 {
        assert(data_events(chunks) =~= Seq::<StreamEvent>::empty());
    } else {
        let rest = chunks.drop_last();
        lemma_stream_hash_of_whole_stream(rest);
        lemma_fold_chunks_is_xor_fold(0, rest);
        assert(data_events(chunks).drop_last() =~= data_events(rest));
        assert(data_events(chunks).last() == StreamEvent::Data(chunks.last()));
    }
}

/// A failed read is never lost: once a read has failed while the stream was
/// being read, the hashing has failed with an I/O failure that carries the
/// detail, and no later read turns that into a checksum.
pub proof fn lemma_stream_hash_failure_sticks(
    so_far: u8,
    detail: String,
    later: Seq<StreamEvent>,
)
    ensures
        StreamHash::Reading(so_far).after(StreamEvent::Failed(detail)).after_all(later)
            == StreamHash::Failed(BenchError { kind: ErrorKind::Io, detail }),
    decreases later.len(),
{
    if later.len() > 0 {
        lemma_stream_hash_failure_sticks(so_far, detail, later.drop_last());
    }
}

} // verus!
