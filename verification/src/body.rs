//! The response body: what the RPC side is handed for each read of the host's
//! stream.

use vstd::prelude::*;
use vstd::string::*;

verus! {

/// How one read of the host's stream ended.
#[derive(Debug, Clone, PartialEq, Eq)]
pub enum HostRead {
    /// The next chunk, copied out of the host's buffer.
    Chunk(Vec<u8>),
    /// The stream is closed: there is no more data.
    Closed,
    /// The read failed.
    Failed,
}

/// A failure of the host's stream. It says no more than that one occurred.
#[derive(Debug, Clone, PartialEq, Eq)]
pub struct StreamError {
    pub message: String,
}

/// A read of the host's stream, as a value.
pub enum Read {
    Chunk(Seq<u8>),
    Closed,
    Failed,
}

/// What the RPC side is handed: the bytes of a chunk, or the stream's failure.
pub enum Item {
    Data(Seq<u8>),
    Failure,
}

impl View for HostRead {
    type V = Read;

    open spec fn view(&self) -> Read {
        match self {
            HostRead::Chunk(bytes) => Read::Chunk(bytes@),
            HostRead::Closed => Read::Closed,
            HostRead::Failed => Read::Failed,
        }
    }
}

/// One read: whether the body is finished afterwards, and what is handed on.
/// A finished body hands on nothing and stays finished.
pub open spec fn step(finished: bool, read: Read) -> (bool, Option<Item>) {
    if finished {
        (true, None)
    } else {
        match read {
            Read::Chunk(bytes) => (false, Some(Item::Data(bytes))),
            Read::Closed => (true, None),
            Read::Failed => (true, Some(Item::Failure)),
        }
    }
}

/// Everything that is handed on over a run of reads.
pub open spec fn yields(finished: bool, reads: Seq<Read>) -> Seq<Item>
    decreases reads.len(),
{
    if reads.len() == 0 {
        Seq::empty()
    } else {
        let (next, item) = step(finished, reads[0]);
        let rest = yields(next, reads.drop_first());
        match item {
            Some(item) => seq![item] + rest,
            None => rest,
        }
    }
}

/// What a pull returned, as a value.
pub open spec fn item_of(pulled: Option<Result<Vec<u8>, StreamError>>) -> Option<Item> {
    match pulled {
        None => None,
        Some(Ok(bytes)) => Some(Item::Data(bytes@)),
        Some(Err(_)) => Some(Item::Failure),
    }
}

/// The state of one response body. It lives for one call.
#[derive(Debug)]
pub struct ReadableStreamBody {
    finished: bool,
}

impl ReadableStreamBody {
    /// The stream has closed or failed.
    pub closed spec fn finished(&self) -> bool {
        self.finished
    }

    /// A body whose stream has not been read yet.
    pub fn new() -> (body: ReadableStreamBody)
        ensures
            !body.finished(),
    {
        ReadableStreamBody { finished: false }
    }

    /// Whether the host's stream is to be read for the next pull. Once the
    /// stream has closed or failed it is not read again.
    pub fn wants_read(&self) -> (wanted: bool)
        ensures
            wanted == !self.finished(),
    {
        !self.finished
    }

    /// The answer to one pull, given how the read of the host's stream ended:
    /// the chunk, `None` at the end of the stream, or the stream's failure.
    /// After the end or a failure every pull answers `None`.
    pub fn poll_data(&mut self, read: HostRead) -> (pulled: Option<Result<Vec<u8>, StreamError>>)
        ensures
            final(self).finished() == step(old(self).finished(), read@).0,
            item_of(pulled) == step(old(self).finished(), read@).1,
            pulled matches Some(Ok(bytes)) ==> read == HostRead::Chunk(bytes),
            pulled matches Some(Err(e)) ==> e.message@ == "readablestream error"@,
    {
        if self.finished {
            return None;
        }
        match read {
            HostRead::Chunk(bytes) => Some(Ok(bytes)),
            HostRead::Closed => {
                self.finished = true;
                None
            },
            HostRead::Failed => {
                self.finished = true;
                Some(Err(StreamError { message: String::from_str("readablestream error") }))
            },
        }
    }

    /// The trailers of the body. There are none: trailers travel inside the
    /// body's own bytes.
    pub fn poll_trailers(&self) -> (trailers: Result<Option<Vec<(String, String)>>, StreamError>)
        ensures
            trailers == Ok::<Option<Vec<(String, String)>>, StreamError>(None),
    {
        Ok(None)
    }

    /// Whether the body is known to be at its end. It never is: the end is
    /// told by a pull alone.
    pub fn is_end_stream(&self) -> (end: bool)
        ensures
            !end,
    {
        false
    }
}

/// The reads of a stream that delivers `chunks` one by one.
pub open spec fn chunk_reads(chunks: Seq<Seq<u8>>) -> Seq<Read> {
    Seq::new(chunks.len(), |i: int| Read::Chunk(chunks[i]))
}

/// `chunks` as they are handed on.
pub open spec fn data_items(chunks: Seq<Seq<u8>>) -> Seq<Item> {
    Seq::new(chunks.len(), |i: int| Item::Data(chunks[i]))
}

/// A finished body hands on nothing, whatever the host's stream does next.
pub proof fn lemma_finished_stays_silent(reads: Seq<Read>)
    ensures
        yields(true, reads) == Seq::<Item>::empty(),
    decreases reads.len(),
{
    if reads.len() > 0 {
        lemma_finished_stays_silent(reads.drop_first());
    }
}

/// While chunks arrive, each is handed on unchanged and in order, and the
/// body goes on as it was.
pub proof fn lemma_chunks_pass_through(chunks: Seq<Seq<u8>>, tail: Seq<Read>)
    ensures
        yields(false, chunk_reads(chunks) + tail) == data_items(chunks) + yields(false, tail),
    decreases chunks.len(),
{
    let reads = chunk_reads(chunks) + tail;
    if chunks.len() == 0 {
        assert(reads =~= tail);
        assert(data_items(chunks) + yields(false, tail) =~= yields(false, tail));
    } else {
        let later = chunks.drop_first();
        assert(reads[0] == Read::Chunk(chunks[0]));
        assert(reads.drop_first() =~= chunk_reads(later) + tail);
        lemma_chunks_pass_through(later, tail);
        assert(data_items(chunks) =~= seq![Item::Data(chunks[0])] + data_items(later));
        assert(yields(false, reads) =~= seq![Item::Data(chunks[0])] + (data_items(later) + yields(
            false,
            tail,
        )));
    }
}

/// A stream that delivers `chunks` and then closes yields exactly those
/// chunks, in order, and nothing after them, whatever is read later.
pub proof fn lemma_chunks_then_close(chunks: Seq<Seq<u8>>, later: Seq<Read>)
    ensures
        yields(false, chunk_reads(chunks) + (seq![Read::Closed] + later)) == data_items(chunks),
{
    let tail = seq![Read::Closed] + later;
    lemma_chunks_pass_through(chunks, tail);
    assert(tail.drop_first() =~= later);
    lemma_finished_stays_silent(later);
    assert(yields(false, tail) =~= Seq::<Item>::empty());
    assert(data_items(chunks) + Seq::<Item>::empty() =~= data_items(chunks));
}

/// A stream that delivers `chunks` and then fails yields exactly those
/// chunks, then one failure, and nothing after it, whatever is read later.
pub proof fn lemma_chunks_then_failure(chunks: Seq<Seq<u8>>, later: Seq<Read>)
    ensures
        yields(false, chunk_reads(chunks) + (seq![Read::Failed] + later)) == data_items(chunks)
            + seq![Item::Failure],
{
    let tail = seq![Read::Failed] + later;
    lemma_chunks_pass_through(chunks, tail);
    assert(tail.drop_first() =~= later);
    lemma_finished_stays_silent(later);
    assert(yields(false, tail) =~= seq![Item::Failure]);
}

} // verus!
