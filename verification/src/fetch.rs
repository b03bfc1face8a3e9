//! One HTTP exchange with the service, as the decisions that lead through
//! it. The crate sends nothing itself: a transport sends the request, reads
//! the body chunk by chunk, and reports each outcome to the functions of
//! this module, which say how the exchange goes on.

use vstd::prelude::*;

verus! {

/// The host that serves every request.
pub const AUTHORITY: &'static str = "jsonplaceholder.typicode.com";

/// The only status that counts as a success.
pub const STATUS_OK: u16 = 200;

/// The most bytes that one read of a body asks for.
pub const READ_LIMIT: u64 = 8192;

/// The method of a request.
#[derive(Clone, Copy, Debug, PartialEq, Eq)]
pub enum Method {
    Get,
}

/// The scheme of a request.
#[derive(Clone, Copy, Debug, PartialEq, Eq)]
pub enum Scheme {
    Https,
}

/// A request to the service. It has no body.
#[derive(Clone, Debug, PartialEq, Eq)]
pub struct Request {
    pub method: Method,
    pub scheme: Scheme,
    pub authority: String,
    pub path_with_query: String,
}

/// Why an exchange brought no body.
#[derive(Clone, Copy, Debug, PartialEq, Eq)]
pub enum FetchFailure {
    /// The transport refused the method, scheme, authority or path of the
    /// request.
    Construction,
    /// No response came: the connection, the handshake or the wait failed.
    Transport,
    /// A response came with a status other than 200.
    Status(u16),
    /// The body could not be read to its end.
    BodyRead,
}

/// What a transport reports once it was handed a request.
#[derive(Clone, Copy, Debug, PartialEq, Eq)]
pub enum Reply {
    /// It refused a field of the request.
    Rejected,
    /// It brought no response.
    Unreachable,
    /// It brought a response with this status.
    Status(u16),
}

/// What a transport reports once it was asked to read from the body.
#[derive(Clone, Debug, PartialEq, Eq)]
pub enum Read {
    /// The bytes that were read; none at the end of the body.
    Chunk(Vec<u8>),
    /// The read failed.
    Failed,
}

/// How an exchange goes on.
#[derive(Debug, PartialEq, Eq)]
pub enum Step {
    /// Read at most `limit` more bytes of the body. `body` holds what was
    /// read so far.
    Read { body: Vec<u8>, limit: u64 },
    /// The exchange is over, with the whole body or with a failure.
    Done(Result<Vec<u8>, FetchFailure>),
}

/// The model of a [`Read`].
pub enum ReadModel {
    Chunk(Seq<u8>),
    Failed,
}

/// The model of a [`Step`].
pub enum StepModel {
    Read { body: Seq<u8>, limit: u64 },
    Done(Result<Seq<u8>, FetchFailure>),
}

impl View for Read {
    type V = ReadModel;

    open spec fn view(&self) -> ReadModel {
        match self {
            Read::Chunk(bytes) => ReadModel::Chunk(bytes@),
            Read::Failed => ReadModel::Failed,
        }
    }
}

/// The model of the end of an exchange.
pub open spec fn fetched_view(fetched: Result<Vec<u8>, FetchFailure>) -> Result<
    Seq<u8>,
    FetchFailure,
> {
    match fetched {
        Ok(bytes) => Ok(bytes@),
        Err(failure) => Err(failure),
    }
}

impl View for Step {
    type V = StepModel;

    open spec fn view(&self) -> StepModel {
        match self {
            Step::Read { body, limit } => StepModel::Read { body: body@, limit: *limit },
            Step::Done(fetched) => StepModel::Done(fetched_view(*fetched)),
        }
    }
}

/// The step after a reply: with status 200 the body is read from its start;
/// any other status, and any failure to get a response, ends the exchange.
pub open spec fn after_reply(reply: Reply) -> StepModel {
    match reply {
        Reply::Rejected => StepModel::Done(Err(FetchFailure::Construction)),
        Reply::Unreachable => StepModel::Done(Err(FetchFailure::Transport)),
        Reply::Status(status) => if status == STATUS_OK {
            StepModel::Read { body: Seq::empty(), limit: READ_LIMIT }
        } else {
            StepModel::Done(Err(FetchFailure::Status(status)))
        },
    }
}

/// The step after a read: bytes are appended and the reading goes on; a
/// read that brings no bytes ends the exchange with what was read; a failed
/// read ends it with a failure, and what was read is dropped.
pub open spec fn after_read(body: Seq<u8>, read: ReadModel) -> StepModel {
    match read {
        ReadModel::Chunk(bytes) => if bytes.len() == 0 {
            StepModel::Done(Ok(body))
        } else {
            StepModel::Read { body: body + bytes, limit: READ_LIMIT }
        },
        ReadModel::Failed => StepModel::Done(Err(FetchFailure::BodyRead)),
    }
}

/// The request for `path_with_query`: a `GET` over HTTPS to the service.
pub fn request(path_with_query: &str) -> (r: Request)
    ensures
        r.method == Method::Get,
        r.scheme == Scheme::Https,
        r.authority@ == AUTHORITY@,
        r.path_with_query@ == path_with_query@,
{
    Request {
        method: Method::Get,
        scheme: Scheme::Https,
        authority: String::from_str(AUTHORITY),
        path_with_query: String::from_str(path_with_query),
    }
}

/// Decides how the exchange goes on after the transport's reply.
pub fn on_reply(reply: Reply) -> (step: Step)
    ensures
        step@ == after_reply(reply),
{
    match reply {
        Reply::Rejected => Step::Done(Err(FetchFailure::Construction)),
        Reply::Unreachable => Step::Done(Err(FetchFailure::Transport)),
        Reply::Status(status) => if status == STATUS_OK {
            Step::Read { body: Vec::new(), limit: READ_LIMIT }
        } else {
            Step::Done(Err(FetchFailure::Status(status)))
        },
    }
}

/// Decides how the exchange goes on after a read, given what was read
/// before it.
pub fn on_read(body: Vec<u8>, read: Read) -> (step: Step)
    ensures
        step@ == after_read(body@, read@),
{
    match read {
        Read::Chunk(mut bytes) => if bytes.len() == 0 {
            Step::Done(Ok(body))
        } else {
            let mut body = body;
            body.append(&mut bytes);
            Step::Read { body, limit: READ_LIMIT }
        },
        Read::Failed => Step::Done(Err(FetchFailure::BodyRead)),
    }
}

/// Where an exchange stands after a run of reads: each read is decided as
/// [`after_read`] says while the body is being read, and ignored once the
/// exchange is over.
pub open spec fn after_reads(step: StepModel, reads: Seq<ReadModel>) -> StepModel
    decreases reads.len(),
{
    if reads.len() == 0 {
        step
    } else {
        match after_reads(step, reads.drop_last()) {
            StepModel::Read { body, limit } => after_read(body, reads.last()),
            StepModel::Done(fetched) => StepModel::Done(fetched),
        }
    }
}

/// The bytes of a run of chunks, one chunk after the other.
pub open spec fn gathered(chunks: Seq<Seq<u8>>) -> Seq<u8>
    decreases chunks.len(),
{
    if chunks.len() == 0 {
        Seq::empty()
    } else {
        gathered(chunks.drop_last()) + chunks.last()
    }
}

/// The reads that bring a run of chunks.
pub open spec fn chunk_reads(chunks: Seq<Seq<u8>>) -> Seq<ReadModel> {
    Seq::new(chunks.len(), |i: int| ReadModel::Chunk(chunks[i]))
}

/// While reads bring bytes the exchange goes on, and the body grows by each
/// chunk in the order of the reads.
pub proof fn lemma_reads_gather(body: Seq<u8>, chunks: Seq<Seq<u8>>)
    requires
        forall|i: int| 0 <= i < chunks.len() ==> (#[trigger] chunks[i]).len() > 0,
    ensures
        after_reads(StepModel::Read { body, limit: READ_LIMIT }, chunk_reads(chunks))
            == (StepModel::Read { body: body + gathered(chunks), limit: READ_LIMIT }),
    decreases chunks.len(),
{
    if chunks.len() == 0 {
        assert(body + gathered(chunks) =~= body);
    } else {
        lemma_reads_gather(body, chunks.drop_last());
        assert(chunk_reads(chunks).drop_last() =~= chunk_reads(chunks.drop_last()));
        assert(chunk_reads(chunks).last() == ReadModel::Chunk(chunks.last()));
        assert((body + gathered(chunks.drop_last())) + chunks.last() =~= body + gathered(chunks));
    }
}

/// A response with status 200 whose body comes in a run of chunks, followed
/// by a read that brings nothing, ends with the bytes of all the chunks in
/// their order.
pub proof fn lemma_body_is_drained(chunks: Seq<Seq<u8>>)
    requires
        forall|i: int| 0 <= i < chunks.len() ==> (#[trigger] chunks[i]).len() > 0,
    ensures
        after_reads(
            after_reply(Reply::Status(STATUS_OK)),
            chunk_reads(chunks).push(ReadModel::Chunk(Seq::empty())),
        ) == StepModel::Done(Ok(gathered(chunks))),
{
    let reads = chunk_reads(chunks).push(ReadModel::Chunk(Seq::empty()));
    lemma_reads_gather(Seq::empty(), chunks);
    assert(reads.drop_last() =~= chunk_reads(chunks));
    assert(Seq::<u8>::empty() + gathered(chunks) =~= gathered(chunks));
}

/// A read that fails after a run of chunks ends the exchange with a failure:
/// nothing of what was read is handed on.
pub proof fn lemma_failed_read_drops_the_body(chunks: Seq<Seq<u8>>)
    requires
        forall|i: int| 0 <= i < chunks.len() ==> (#[trigger] chunks[i]).len() > 0,
    ensures
        after_reads(
            after_reply(Reply::Status(STATUS_OK)),
            chunk_reads(chunks).push(ReadModel::Failed),
        ) == StepModel::Done(Err(FetchFailure::BodyRead)),
{
    let reads = chunk_reads(chunks).push(ReadModel::Failed);
    lemma_reads_gather(Seq::empty(), chunks);
    assert(reads.drop_last() =~= chunk_reads(chunks));
}

/// Once an exchange is over no read changes how it ended.
pub proof fn lemma_done_stays_done(fetched: Result<Seq<u8>, FetchFailure>, reads: Seq<ReadModel>)
    ensures
        after_reads(StepModel::Done(fetched), reads) == StepModel::Done(fetched),
    decreases reads.len(),
{
    if reads.len() > 0 {
        lemma_done_stays_done(fetched, reads.drop_last());
    }
}

/// Only a response with status 200 has its body read: every other reply ends
/// the exchange with a failure.
pub proof fn lemma_only_status_ok_is_read(reply: Reply)
    ensures
        after_reply(reply) is Read <==> reply == Reply::Status(STATUS_OK),
        after_reply(reply) matches StepModel::Done(fetched) ==> fetched is Err,
{
}

} // verus!
