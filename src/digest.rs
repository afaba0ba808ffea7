use vstd::prelude::*;
use vstd::slice::slice_subrange;
use sha2::Digest;

verus! {

/// A running SHA-256 computation. The hasher is held opaquely, in a private
/// field: `sha2::Sha256` is an alias of a generic core wrapper whose type
/// arguments cannot be declared to the verifier. What it has absorbed so far
/// is `absorbed(h)`.
#[verifier::external_body]
pub struct Sha256State {
    inner: sha2::Sha256,
}

/// The bytes that a running hasher has absorbed, in order.
pub uninterp spec fn absorbed(h: Sha256State) -> Seq<u8>;

/// The lowercase hexadecimal SHA-256 digest of a byte sequence.
pub uninterp spec fn sha256_hex(data: Seq<u8>) -> Seq<char>;

/// Relies on `sha2::Sha256::new` (through `Digest`): a fresh hasher has
/// absorbed nothing.
#[verifier::external_body]
fn sha256_new() -> (r: Sha256State)
    ensures
        absorbed(r) == Seq::<u8>::empty(),
{
    Sha256State { inner: sha2::Sha256::new() }
}

/// Relies on `Digest::update` for `sha2::Sha256`: the hasher goes on from
/// where it stood, as if the chunk had been appended to what it absorbed.
#[verifier::external_body]
fn sha256_update(h: &mut Sha256State, chunk: &[u8])
    ensures
        absorbed(*final(h)) == absorbed(*old(h)) + chunk@,
{
    h.inner.update(chunk);
}

/// Relies on `Digest::finalize` for `sha2::Sha256` and on the `LowerHex`
/// formatting of its output: the digest of everything absorbed, written as
/// 64 lowercase hexadecimal digits.
#[verifier::external_body]
fn sha256_finish_hex(h: Sha256State) -> (r: String)
    ensures
        r@ == sha256_hex(absorbed(h)),
        r@.len() == 64,
{
    format!("{:x}", h.inner.finalize())
}

/// What a session does after being handed one chunk of a stream.
#[derive(Clone, Copy, Debug, PartialEq, Eq, Structural)]
pub enum ChunkStep {
    /// The chunk was absorbed; read the next one.
    Continue,
    /// The chunk was empty: the stream is exhausted and the digest is ready.
    Exhausted,
}

/// The digest of one byte stream read in chunks of at most `chunk_size`
/// bytes. The reader hands each chunk to `accept_chunk` until it answers
/// `Exhausted`, then takes the digest with `finish`. A failed read is the
/// reader's to report; the session is then dropped.
pub struct DigestSession {
    hasher: Sha256State,
    chunk_size: usize,
    ended: bool,
}

impl DigestSession {
    /// Everything absorbed so far.
    pub closed spec fn consumed(&self) -> Seq<u8> {
        absorbed(self.hasher)
    }

    /// The largest chunk that a read may hand over.
    pub closed spec fn spec_chunk_size(&self) -> usize {
        self.chunk_size
    }

    /// Whether an empty chunk has marked the end of the stream.
    pub closed spec fn is_ended(&self) -> bool {
        self.ended
    }

    pub closed spec fn wf(&self) -> bool {
        self.chunk_size > 0
    }

    /// Starts a session for reads of up to `chunk_size` bytes.
    pub fn new(chunk_size: usize) -> (r: DigestSession)
        requires
            chunk_size > 0,
        ensures
            r.wf(),
            r.consumed() == Seq::<u8>::empty(),
            r.spec_chunk_size() == chunk_size,
            !r.is_ended(),
    {
        DigestSession { hasher: sha256_new(), chunk_size, ended: false }
    }

    /// The size of the buffer that each read fills.
    pub fn chunk_size(&self) -> (r: usize)
        ensures
            r == self.spec_chunk_size(),
    {
        self.chunk_size
    }

    /// Hands over the bytes of one read. An empty chunk ends the stream;
    /// any other is absorbed.
    pub fn accept_chunk(&mut self, chunk: &[u8]) -> (r: ChunkStep)
        requires
            old(self).wf(),
            !old(self).is_ended(),
            chunk@.len() <= old(self).spec_chunk_size(),
        ensures
            final(self).wf(),
            final(self).spec_chunk_size() == old(self).spec_chunk_size(),
            final(self).consumed() == old(self).consumed() + chunk@,
            chunk@.len() == 0 <==> r == ChunkStep::Exhausted,
            final(self).is_ended() <==> r == ChunkStep::Exhausted,
    {
        if chunk.len() == 0 {
            self.ended = true;
            proof {
                assert(old(self).consumed() + chunk@ =~= old(self).consumed());
            }
            ChunkStep::Exhausted
        } else {
            sha256_update(&mut self.hasher, chunk);
            ChunkStep::Continue
        }
    }

    /// The lowercase hexadecimal digest of everything consumed.
    pub fn finish(self) -> (r: String)
        ensures
            r@ == sha256_hex(self.consumed()),
            r@.len() == 64,
    {
        sha256_finish_hex(self.hasher)
    }
}

/// The concatenation of a sequence of chunks.
pub open spec fn joined(chunks: Seq<Seq<u8>>) -> Seq<u8>
    decreases chunks.len(),
{
    if chunks.len() == 0 {
        Seq::empty()
    } else {
        chunks[0] + joined(chunks.skip(1))
    }
}

/// The chunks in which reads with a buffer of `n` bytes deliver `data`:
/// full buffers, then what is left.
pub open spec fn chunks_of(data: Seq<u8>, n: nat) -> Seq<Seq<u8>>
    decreases data.len(),
{
    if data.len() == 0 || n == 0 {
        Seq::empty()
    } else if data.len() <= n {
        seq![data]
    } else {
        seq![data.take(n as int)] + chunks_of(data.skip(n as int), n)
    }
}

/// Cutting bytes into buffer-sized chunks loses and repeats nothing: the
/// chunks are non-empty, none is longer than the buffer, and together they
/// are the bytes in order.
pub proof fn lemma_chunks_rejoin(data: Seq<u8>, n: nat)
    requires
        n > 0,
    ensures
        joined(chunks_of(data, n)) == data,
        forall|i: int| 0 <= i < chunks_of(data, n).len()
            ==> 0 < #[trigger] chunks_of(data, n)[i].len() <= n,
    decreases data.len(),
{
    let c = chunks_of(data, n);
    if data.len() == 0 {
    } else if data.len() <= n {
        assert(c.skip(1) =~= Seq::<Seq<u8>>::empty());
        assert(c[0] == data);
        assert(joined(c.skip(1)) == Seq::<u8>::empty());
        assert(joined(c) =~= data);
    } else {
        let rest = data.skip(n as int);
        lemma_chunks_rejoin(rest, n);
        assert(c.skip(1) =~= chunks_of(rest, n));
        assert(data.take(n as int) + rest =~= data);
        assert forall|i: int| 0 <= i < c.len() implies 0 < #[trigger] c[i].len() <= n by {
            if i > 0 {
                assert(c[i] == chunks_of(rest, n)[i - 1]);
            }
        }
    }
}

/// The digest does not depend on the buffer size: reading the same bytes
/// with buffers of any two sizes feeds the hasher the same byte sequence.
pub proof fn lemma_digest_ignores_buffer_size(data: Seq<u8>, n1: nat, n2: nat)
    requires
        n1 > 0,
        n2 > 0,
    ensures
        sha256_hex(joined(chunks_of(data, n1))) == sha256_hex(joined(chunks_of(data, n2))),
        sha256_hex(joined(chunks_of(data, n1))) == sha256_hex(data),
{
    lemma_chunks_rejoin(data, n1);
    lemma_chunks_rejoin(data, n2);
}

/// Every strategy, blocking or suspending, reads through a session, and a
/// session's digest depends on the bytes it consumed alone: two sessions
/// that consumed the same bytes, whatever their chunk sizes, end with the
/// same digest, the digest of those bytes.
pub proof fn lemma_sessions_agree(a: DigestSession, b: DigestSession)
    requires
        a.wf(),
        b.wf(),
        a.consumed() == b.consumed(),
    ensures
        sha256_hex(a.consumed()) == sha256_hex(b.consumed()),
{
}

/// Digests a byte sequence held in memory, streaming it through a session
/// in chunks of `chunk_size` bytes, the last one shorter, then an empty one.
pub fn digest_bytes(data: &[u8], chunk_size: usize) -> (r: String)
    requires
        chunk_size > 0,
    ensures
        r@ == sha256_hex(data@),
        r@.len() == 64,
{
    let mut session = DigestSession::new(chunk_size);
    let mut pos: usize = 0;
    let mut step = ChunkStep::Continue;
    while step == ChunkStep::Continue
        invariant
            session.wf(),
            session.spec_chunk_size() == chunk_size,
            pos <= data@.len(),
            session.consumed() == data@.subrange(0, pos as int),
            session.is_ended() <==> step == ChunkStep::Exhausted,
            step == ChunkStep::Exhausted ==> pos == data@.len(),
        decreases data@.len() - pos, if step == ChunkStep::Continue { 1int } else { 0int },
    {
        let remaining = data.len() - pos;
        let take = if remaining < chunk_size { remaining } else { chunk_size };
        let chunk = slice_subrange(data, pos, pos + take);
        step = session.accept_chunk(chunk);
        proof {
            assert(data@.subrange(0, pos as int) + data@.subrange(pos as int, (pos + take) as int)
                =~= data@.subrange(0, (pos + take) as int));
        }
        pos = pos + take;
    }
    proof {
        assert(data@.subrange(0, pos as int) =~= data@);
    }
    session.finish()
}

} // verus!
