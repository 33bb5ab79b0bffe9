//! One open connection to an instrument, as a protocol engine without I/O of its own.
//!
//! A session says what the transport is to be asked (a request), and decides what the
//! transport's answer means. A call that may take several transport calls is a state
//! machine: its state says whether another transport call is due, and each answer of
//! the transport moves it on. The caller makes the transport calls, one at a time and in
//! the order in which the states ask for them.
use crate::error::{classify, CompletionCode, Error};
use crate::utility::{FlushMode, Timeout};
use vstd::prelude::*;
use vstd::slice::slice_subrange;
use vstd::string::*;
use vstd::utf8::{decode_utf8, encode_utf8, valid_utf8};

verus! {

/// The attribute that holds a session's timeout, in milliseconds.
pub const VI_ATTR_TMO_VALUE: u32 = 0x3FFF_001A;

/// How many bytes one transport read is asked for. The size is a choice of this
/// library: a message of any length is put together from as many chunks as it takes.
pub const READ_CHUNK: u32 = 4096;

/// One open connection to an instrument or interface, known by its handle.
#[derive(Debug, PartialEq, Eq)]
pub struct Session {
    value: u32,
}

impl View for Session {
    type V = u32;

    closed spec fn view(&self) -> u32 {
        self.value
    }
}

/// A request to set one attribute of a session.
#[derive(Debug, Clone, Copy, PartialEq, Eq, Structural)]
pub struct SetAttributeRequest {
    pub session: u32,
    pub attribute: u32,
    pub state: u64,
}

/// A request to flush buffers of a session.
#[derive(Debug, Clone, Copy, PartialEq, Eq, Structural)]
pub struct FlushRequest {
    pub session: u32,
    pub mask: u16,
}

impl SetAttributeRequest {
    /// Decides what the setting has come to, from the status that the transport
    /// answered with: any completion code says that the attribute is set.
    pub fn complete(&self, status: i32) -> (r: Result<CompletionCode, Error>)
        ensures
            r == classify(status),
    {
        CompletionCode::try_from(status)
    }
}

impl FlushRequest {
    /// Decides what the flush has come to, from the status that the transport answered
    /// with: any completion code says that the buffers are flushed.
    pub fn complete(&self, status: i32) -> (r: Result<CompletionCode, Error>)
        ensures
            r == classify(status),
    {
        CompletionCode::try_from(status)
    }
}

/// A request to write bytes to a session. `count` is the number of bytes as the
/// transport takes it, in 32 bits.
#[derive(Debug, PartialEq, Eq)]
pub struct WriteRequest {
    pub session: u32,
    pub bytes: Vec<u8>,
    pub count: u32,
}

/// A write request as the contracts speak of it.
pub struct WriteRequestView {
    pub session: u32,
    pub bytes: Seq<u8>,
    pub count: u32,
}

impl View for WriteRequest {
    type V = WriteRequestView;

    open spec fn view(&self) -> WriteRequestView {
        WriteRequestView { session: self.session, bytes: self.bytes@, count: self.count }
    }
}

/// The request that writes a command to a session: the bytes of its text, all of them.
/// The count is their number cut to 32 bits, which is the number itself for any command
/// that the transport can take in one call.
pub open spec fn write_request(session: u32, command: Seq<char>) -> WriteRequestView {
    WriteRequestView {
        session,
        bytes: encode_utf8(command),
        count: encode_utf8(command).len() as u32,
    }
}

/// What a write has come to, once the transport has answered with a status and the
/// number of bytes that it wrote: the fatal condition that the status stands for, or
/// else a mismatch where the transport wrote another number of bytes than it was given.
/// A status that reports success does not by itself make the write complete.
pub open spec fn write_outcome(expected: nat, status: i32, return_count: u32) -> Result<(), Error> {
    match classify(status) {
        Err(error) => Err(error),
        Ok(_) => if return_count == expected {
            Ok(())
        } else {
            Err(
                Error::WriteLengthMismatch {
                    length: return_count as usize,
                    expected: expected as usize,
                },
            )
        },
    }
}

impl WriteRequest {
    /// Decides what the write has come to, from the transport's answer to it.
    pub fn complete(&self, status: i32, return_count: u32) -> (r: Result<(), Error>)
        ensures
            r == write_outcome(self.bytes@.len(), status, return_count),
    {
        match CompletionCode::try_from(status) {
            Err(error) => Err(error),
            Ok(_) => {
                if self.bytes.len() != return_count as usize {
                    Err(
                        Error::WriteLengthMismatch {
                            length: return_count as usize,
                            expected: self.bytes.len(),
                        },
                    )
                } else {
                    Ok(())
                }
            },
        }
    }
}

/// Where the transport reports no fatal condition but another number of bytes than the
/// write was given, the write fails with a length mismatch that holds the reported
/// number as `length` and the given one as `expected`.
pub proof fn lemma_write_length_mismatch(expected: usize, status: i32, return_count: u32)
    requires
        classify(status) is Ok,
        return_count != expected,
    ensures
        write_outcome(expected as nat, status, return_count) == Err::<(), Error>(
            Error::WriteLengthMismatch { length: return_count as usize, expected },
        ),
{
}

/// Whether a chunk that ended with this completion code was the last one of its message.
pub open spec fn ends_message(code: CompletionCode) -> bool {
    code == CompletionCode::Success || code == CompletionCode::TerminationCharacterRead
}

/// A read in progress or at its end.
#[derive(Debug, PartialEq, Eq)]
pub enum Read {
    /// Another chunk is to be read from the session; `received` holds the bytes so far.
    Reading { session: u32, received: Vec<u8> },
    /// The message is complete.
    Done(String),
    /// The read has failed.
    Failed(Error),
}

/// A read as the contracts speak of it.
pub enum ReadView {
    Reading { session: u32, received: Seq<u8> },
    Done(Seq<char>),
    Failed(Error),
}

impl View for Read {
    type V = ReadView;

    open spec fn view(&self) -> ReadView {
        match self {
            Read::Reading { session, received } => ReadView::Reading {
                session: *session,
                received: received@,
            },
            Read::Done(text) => ReadView::Done(text@),
            Read::Failed(error) => ReadView::Failed(*error),
        }
    }
}

/// The message that the bytes of a read make up: their text where they are valid UTF-8,
/// and a failure where they are not. Nothing is repaired.
pub open spec fn message(received: Seq<u8>) -> ReadView {
    if valid_utf8(received) {
        ReadView::Done(decode_utf8(received))
    } else {
        ReadView::Failed(Error::InvalidUtf8)
    }
}

/// The state of a read after a chunk that the transport read without a fatal condition.
/// `MaximumCount` says that the chunk was filled and more may follow: the bytes are kept
/// and the read goes on. `Success` and `TerminationCharacterRead` end the message with
/// this chunk. Any other completion code fails the read.
pub open spec fn after_chunk(
    session: u32,
    received: Seq<u8>,
    code: CompletionCode,
    chunk: Seq<u8>,
) -> ReadView {
    if ends_message(code) {
        message(received + chunk)
    } else if code == CompletionCode::MaximumCount {
        ReadView::Reading { session, received: received + chunk }
    } else {
        ReadView::Failed(Error::UnexpectedCompletionCode(code))
    }
}

/// The bytes that the transport has read into a buffer: as many of them, from the
/// start, as it has counted. A transport that reports a fatal condition has read
/// nothing that counts.
pub open spec fn chunk_read(status: i32, buffer: Seq<u8>, return_count: u32) -> Seq<u8> {
    if classify(status) is Ok {
        buffer.subrange(0, return_count as int)
    } else {
        Seq::<u8>::empty()
    }
}

impl ReadView {
    /// The state after the transport has answered one chunk read with a status and the
    /// bytes that it read. A fatal status fails the read, whatever was read; any other
    /// status is a completion code, and the state is that after the chunk. A read that
    /// is done or has failed stays as it is.
    pub open spec fn advance(self, status: i32, chunk: Seq<u8>) -> ReadView {
        match self {
            ReadView::Reading { session, received } => match classify(status) {
                Err(error) => ReadView::Failed(error),
                Ok(code) => after_chunk(session, received, code, chunk),
            },
            _ => self,
        }
    }

    /// The state after the transport's answers to a run of chunk reads, in their order.
    pub open spec fn run(self, answers: Seq<(i32, Seq<u8>)>) -> ReadView
        decreases answers.len(),
    {
        if answers.len() == 0 {
            self
        } else {
            self.run(answers.drop_last()).advance(answers.last().0, answers.last().1)
        }
    }
}

/// The bytes of a run of chunks, one after the other.
pub open spec fn gathered(answers: Seq<(i32, Seq<u8>)>) -> Seq<u8>
    decreases answers.len(),
{
    if answers.len() == 0 {
        Seq::<u8>::empty()
    } else {
        gathered(answers.drop_last()) + answers.last().1
    }
}

/// Whether every one of the answers reports a filled chunk.
pub open spec fn all_filled(answers: Seq<(i32, Seq<u8>)>) -> bool {
    forall|i: int|
        0 <= i < answers.len() ==> classify((#[trigger] answers[i]).0) == Ok::<
            CompletionCode,
            Error,
        >(CompletionCode::MaximumCount)
}

/// `String::from_utf8` of std: the text that the bytes encode, where they are valid
/// UTF-8, and nothing where they are not.
#[verifier::external_body]
fn from_utf8(bytes: Vec<u8>) -> (r: Option<String>)
    ensures
        r is Some == valid_utf8(bytes@),
        r matches Some(text) ==> text@ == decode_utf8(bytes@),
{
    String::from_utf8(bytes).ok()
}

/// Takes a chunk into a read that goes on, and decides by the completion code whether
/// the message is complete.
fn take_chunk(session: u32, received: Vec<u8>, code: CompletionCode, chunk: &[u8]) -> (next: Read)
    ensures
        next@ == after_chunk(session, received@, code, chunk@),
{
    let mut received = received;
    let ghost before = received@;
    received.extend_from_slice(chunk);
    assert(received@ =~= before + chunk@);
    match code {
        CompletionCode::Success | CompletionCode::TerminationCharacterRead => {
            match from_utf8(received) {
                Some(text) => Read::Done(text),
                None => Read::Failed(Error::InvalidUtf8),
            }
        },
        CompletionCode::MaximumCount => Read::Reading { session, received },
        code => Read::Failed(Error::UnexpectedCompletionCode(code)),
    }
}

impl Read {
    /// Moves the read on by the transport's answer to one chunk read: its status and
    /// the bytes that it read.
    pub fn advance(self, status: i32, chunk: &[u8]) -> (next: Read)
        ensures
            next@ == self@.advance(status, chunk@),
    {
        match self {
            Read::Reading { session, received } => match CompletionCode::try_from(status) {
                Err(error) => Read::Failed(error),
                Ok(code) => take_chunk(session, received, code, chunk),
            },
            Read::Done(text) => Read::Done(text),
            Read::Failed(error) => Read::Failed(error),
        }
    }

    /// Moves the read on by the transport's answer to one chunk read as the transport
    /// gives it: its status, the buffer that it read into, and the number of bytes that
    /// it counts as read. The status is classified first, and only a buffer that was
    /// read without a fatal condition is cut at the count; so the count must not go
    /// beyond the buffer then, and may be anything where the status is fatal.
    pub fn answered(self, status: i32, buffer: &[u8], return_count: u32) -> (next: Read)
        requires
            classify(status) is Ok ==> return_count <= buffer@.len(),
        ensures
            next@ == self@.advance(status, chunk_read(status, buffer@, return_count)),
    {
        match self {
            Read::Reading { session, received } => match CompletionCode::try_from(status) {
                Err(error) => Read::Failed(error),
                Ok(code) => {
                    let chunk = slice_subrange(buffer, 0, return_count as usize);
                    take_chunk(session, received, code, chunk)
                },
            },
            Read::Done(text) => Read::Done(text),
            Read::Failed(error) => Read::Failed(error),
        }
    }

    /// Whether the read has come to its end, so that no chunk is to be read any more.
    pub fn is_finished(&self) -> (r: bool)
        ensures
            r == !(self@ is Reading),
    {
        match self {
            Read::Reading { .. } => false,
            _ => true,
        }
    }
}

/// As long as the transport answers every chunk read with a filled chunk, the read goes
/// on and keeps all the bytes: on such answers alone it never comes to an end.
pub proof fn lemma_read_goes_on(session: u32, received: Seq<u8>, answers: Seq<(i32, Seq<u8>)>)
    requires
        all_filled(answers),
    ensures
        (ReadView::Reading { session, received }).run(answers) == (ReadView::Reading {
            session,
            received: received + gathered(answers),
        }),
    decreases answers.len(),
{
    if answers.len() == 0 {
        assert(received + gathered(answers) =~= received);
    } else {
        lemma_read_goes_on(session, received, answers.drop_last());
        assert(classify(answers[answers.len() - 1].0) == Ok::<CompletionCode, Error>(
            CompletionCode::MaximumCount,
        ));
        assert(received + gathered(answers) =~= (received + gathered(answers.drop_last()))
            + answers.last().1);
    }
}

/// The first answer that ends the message ends the read: after any number of filled
/// chunks and one chunk that reports `Success` or `TerminationCharacterRead`, the read is
/// at its end with the message that all the bytes make up, in the order in which they
/// came.
pub proof fn lemma_read_ends(
    session: u32,
    filled: Seq<(i32, Seq<u8>)>,
    status: i32,
    chunk: Seq<u8>,
)
    requires
        all_filled(filled),
        classify(status) matches Ok(code) && ends_message(code),
    ensures
        (ReadView::Reading { session, received: Seq::<u8>::empty() }).run(
            filled.push((status, chunk)),
        ) == message(gathered(filled) + chunk),
{
    let answers = filled.push((status, chunk));
    assert(answers.drop_last() =~= filled);
    lemma_read_goes_on(session, Seq::<u8>::empty(), filled);
    assert(Seq::<u8>::empty() + gathered(filled) =~= gathered(filled));
}

/// Every answer either continues the read or ends it: after any number of filled chunks,
/// the first answer that reports anything but a filled chunk brings the read to its end.
pub proof fn lemma_read_stops(
    session: u32,
    filled: Seq<(i32, Seq<u8>)>,
    status: i32,
    chunk: Seq<u8>,
)
    requires
        all_filled(filled),
        classify(status) != Ok::<CompletionCode, Error>(CompletionCode::MaximumCount),
    ensures
        !((ReadView::Reading { session, received: Seq::<u8>::empty() }).run(
            filled.push((status, chunk)),
        ) is Reading),
{
    let answers = filled.push((status, chunk));
    assert(answers.drop_last() =~= filled);
    lemma_read_goes_on(session, Seq::<u8>::empty(), filled);
}

/// A read that is at its end stays there, whatever the transport is made to answer.
pub proof fn lemma_read_end_is_final(state: ReadView, answers: Seq<(i32, Seq<u8>)>)
    requires
        !(state is Reading),
    ensures
        state.run(answers) == state,
    decreases answers.len(),
{
    if answers.len() > 0 {
        lemma_read_end_is_final(state, answers.drop_last());
    }
}

/// A query in progress: the command is being written, or the response is being read.
#[derive(Debug, PartialEq, Eq)]
pub enum Query {
    /// The command is to be written to the session.
    Writing(WriteRequest),
    /// The command has been dealt with; the read says how far the response is.
    Reading(Read),
}

/// A query as the contracts speak of it.
pub enum QueryView {
    Writing(WriteRequestView),
    Reading(ReadView),
}

impl View for Query {
    type V = QueryView;

    open spec fn view(&self) -> QueryView {
        match self {
            Query::Writing(request) => QueryView::Writing(request@),
            Query::Reading(read) => QueryView::Reading(read@),
        }
    }
}

impl QueryView {
    /// The state after the transport has answered the write. A write that fails, fails
    /// the query and nothing is read; a complete write starts the read of the response.
    /// The answer to a write means nothing to a query that is past its write.
    pub open spec fn written(self, status: i32, return_count: u32) -> QueryView {
        match self {
            QueryView::Writing(request) => match write_outcome(
                request.bytes.len(),
                status,
                return_count,
            ) {
                Err(error) => QueryView::Reading(ReadView::Failed(error)),
                Ok(_) => QueryView::Reading(
                    ReadView::Reading { session: request.session, received: Seq::<u8>::empty() },
                ),
            },
            _ => self,
        }
    }

    /// The state after the transport has answered a chunk read. A chunk means nothing
    /// to a query whose command is not written yet.
    pub open spec fn received(self, status: i32, chunk: Seq<u8>) -> QueryView {
        match self {
            QueryView::Reading(read) => QueryView::Reading(read.advance(status, chunk)),
            _ => self,
        }
    }
}

impl Query {
    /// Moves the query on by the transport's answer to the write of its command.
    pub fn written(self, status: i32, return_count: u32) -> (next: Query)
        ensures
            next@ == self@.written(status, return_count),
    {
        match self {
            Query::Writing(request) => match request.complete(status, return_count) {
                Err(error) => Query::Reading(Read::Failed(error)),
                Ok(_) => Query::Reading(
                    Read::Reading { session: request.session, received: Vec::new() },
                ),
            },
            Query::Reading(read) => Query::Reading(read),
        }
    }

    /// Moves the query on by the transport's answer to one chunk read.
    pub fn received(self, status: i32, chunk: &[u8]) -> (next: Query)
        ensures
            next@ == self@.received(status, chunk@),
    {
        match self {
            Query::Reading(read) => Query::Reading(read.advance(status, chunk)),
            Query::Writing(request) => Query::Writing(request),
        }
    }
}

impl Session {
    /// The session that the transport knows by this handle.
    pub fn new(session: u32) -> (r: Session)
        ensures
            r@ == session,
    {
        Session { value: session }
    }

    /// The handle by which the transport knows this session.
    pub fn handle(&self) -> (r: u32)
        ensures
            r == self@,
    {
        self.value
    }

    /// The request that sets how long blocking calls on this session wait. A custom
    /// duration whose milliseconds do not fit 32 bits is refused.
    pub fn set_timeout(&self, timeout: Timeout) -> (r: Result<SetAttributeRequest, Error>)
        ensures
            match timeout.attribute_state() {
                Ok(state) => r == Ok::<SetAttributeRequest, Error>(
                    SetAttributeRequest { session: self@, attribute: VI_ATTR_TMO_VALUE, state },
                ),
                Err(error) => r == Err::<SetAttributeRequest, Error>(error),
            },
    {
        match u64::try_from(timeout) {
            Ok(state) => Ok(
                SetAttributeRequest { session: self.value, attribute: VI_ATTR_TMO_VALUE, state },
            ),
            Err(error) => Err(error),
        }
    }

    /// The request that writes a command to this session.
    pub fn write(&self, command: &str) -> (r: WriteRequest)
        ensures
            r@ == write_request(self@, command@),
    {
        let bytes = command.as_bytes_vec();
        let count: u32 = #[verifier::truncate]
        (bytes.len() as u32);
        WriteRequest { session: self.value, bytes, count }
    }

    /// The request that flushes the buffers of this session which `mode` selects.
    pub fn flush(&self, mode: FlushMode) -> (r: FlushRequest)
        ensures
            r == (FlushRequest { session: self@, mask: mode@ }),
    {
        FlushRequest { session: self.value, mask: mode.bits() }
    }

    /// A read of one message from this session, at its start: nothing is received yet.
    pub fn read(&self) -> (r: Read)
        ensures
            r@ == (ReadView::Reading { session: self@, received: Seq::<u8>::empty() }),
    {
        Read::Reading { session: self.value, received: Vec::new() }
    }

    /// A query on this session, at its start: the command is to be written, and the
    /// response is read only once the write is complete.
    pub fn query(&self, command: &str) -> (r: Query)
        ensures
            r@ == QueryView::Writing(write_request(self@, command@)),
    {
        Query::Writing(self.write(command))
    }
}

} // verus!
