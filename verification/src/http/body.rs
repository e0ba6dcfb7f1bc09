//! The body of a request on the way in, and the writer of a response's stream.

use crate::http::chunk;
use crate::http::error::HttpError;
use crate::poll::Poll;
use bytes::Bytes;
use vstd::prelude::*;

verus! {

/// What polling a request for the next frame of its body answered.
pub enum FramePoll {
    /// Nothing yet.
    Pending,
    /// A frame of data.
    Data(Bytes),
    /// A frame that is no data.
    Trailers,
    /// The connection failed.
    Failed(HttpError),
    /// The body has come to its end.
    End,
}

/// The stream of the data of a request's body.
pub struct ReadFuture(pub usize);

/// A polled item of a body, by its bytes.
pub open spec fn polled_bytes(polled: Poll<Option<Result<Bytes, HttpError>>>) -> Poll<
    Option<Result<Seq<u8>, HttpError>>,
> {
    match polled {
        Poll::Pending => Poll::Pending,
        Poll::Ready(None) => Poll::Ready(None),
        Poll::Ready(Some(Err(error))) => Poll::Ready(Some(Err(error))),
        Poll::Ready(Some(Ok(bytes))) => Poll::Ready(Some(Ok(chunk::chunk_bytes(bytes)))),
    }
}

/// What the stream makes of a polled frame: data that is not empty and the end are passed
/// on, and everything else is waited out.
pub open spec fn next_item(frame: FramePoll) -> Poll<Option<Result<Bytes, HttpError>>> {
    match frame {
        FramePoll::Data(bytes) => if chunk::chunk_bytes(bytes).len() > 0 {
            Poll::Ready(Some(Ok(bytes)))
        } else {
            Poll::Pending
        },
        FramePoll::End => Poll::Ready(None),
        _ => Poll::Pending,
    }
}

impl ReadFuture {
    /// The next item of the stream, given what polling the request answered. The stream
    /// never yields an empty frame.
    pub fn poll_next(&self, frame: FramePoll) -> (r: Poll<Option<Result<Bytes, HttpError>>>)
        ensures
            r == next_item(frame),
            frame matches FramePoll::Data(bytes) ==> (chunk::chunk_bytes(bytes).len() > 0 ==> r
                == Poll::<Option<Result<Bytes, HttpError>>>::Ready(Some(Ok(bytes)))),
            r matches Poll::Ready(Some(item)) ==> (frame matches FramePoll::Data(bytes) && item
                == Ok::<Bytes, HttpError>(bytes)),
            r == Poll::<Option<Result<Bytes, HttpError>>>::Ready(None) <==> frame is End,
    {
        match frame {
            FramePoll::Data(bytes) => {
                if !bytes.is_empty() {
                    Poll::Ready(Some(Ok(bytes)))
                } else {
                    Poll::Pending
                }
            },
            FramePoll::End => Poll::Ready(None),
            _ => Poll::Pending,
        }
    }
}

/// The body of a request, as a resource that is read in portions.
pub struct HttpRequestBody {
    peeked: Option<Result<Bytes, HttpError>>,
    done: bool,
}

/// The contents of an [`HttpRequestBody`].
pub struct BodyState {
    /// The item at the front of the stream, where it was looked at and not yet taken.
    pub peeked: Option<Result<Seq<u8>, HttpError>>,
    /// Whether the stream has come to its end.
    pub done: bool,
}

impl View for HttpRequestBody {
    type V = BodyState;

    closed spec fn view(&self) -> BodyState {
        BodyState {
            peeked: match self.peeked {
                None => None,
                Some(Err(error)) => Some(Err(error)),
                Some(Ok(bytes)) => Some(Ok(chunk::chunk_bytes(bytes))),
            },
            done: self.done,
        }
    }
}

impl BodyState {
    /// A body of which nothing was read.
    pub open spec fn fresh() -> Self {
        BodyState { peeked: None, done: false }
    }

    /// Whether the stream has to be polled before anything can be read.
    pub open spec fn needs_poll(self) -> bool {
        self.peeked is None && !self.done
    }

    /// The item at the front of the stream.
    pub open spec fn front(self, polled: Poll<Option<Result<Seq<u8>, HttpError>>>) -> Poll<
        Option<Result<Seq<u8>, HttpError>>,
    > {
        if self.peeked is Some {
            Poll::Ready(self.peeked)
        } else if self.done {
            Poll::Ready(None)
        } else {
            polled
        }
    }

    /// What reading up to `limit` bytes answers.
    pub open spec fn read_result(
        self,
        limit: nat,
        polled: Poll<Option<Result<Seq<u8>, HttpError>>>,
    ) -> Poll<Result<Seq<u8>, HttpError>> {
        match self.front(polled) {
            Poll::Pending => Poll::Pending,
            Poll::Ready(None) => Poll::Ready(Ok(Seq::empty())),
            Poll::Ready(Some(Err(error))) => Poll::Ready(Err(error)),
            Poll::Ready(Some(Ok(bytes))) => Poll::Ready(
                Ok(
                    if bytes.len() <= limit {
                        bytes
                    } else {
                        bytes.take(limit as int)
                    },
                ),
            ),
        }
    }

    /// The body after up to `limit` bytes were read.
    pub open spec fn after_read(
        self,
        limit: nat,
        polled: Poll<Option<Result<Seq<u8>, HttpError>>>,
    ) -> Self {
        match self.front(polled) {
            Poll::Pending => self,
            Poll::Ready(None) => BodyState { peeked: None, done: true },
            Poll::Ready(Some(Err(error))) => BodyState { peeked: None, ..self },
            Poll::Ready(Some(Ok(bytes))) => if bytes.len() <= limit {
                BodyState { peeked: None, ..self }
            } else {
                BodyState { peeked: Some(Ok(bytes.skip(limit as int))), ..self }
            },
        }
    }

    /// The bytes that were looked at and not yet read.
    pub open spec fn buffered(self) -> Seq<u8> {
        match self.peeked {
            Some(Ok(bytes)) => bytes,
            _ => Seq::empty(),
        }
    }
}

/// What a read answered, by its bytes.
pub open spec fn read_bytes(r: Poll<Result<Bytes, HttpError>>) -> Poll<
    Result<Seq<u8>, HttpError>,
> {
    match r {
        Poll::Pending => Poll::Pending,
        Poll::Ready(Err(error)) => Poll::Ready(Err(error)),
        Poll::Ready(Ok(bytes)) => Poll::Ready(Ok(chunk::chunk_bytes(bytes))),
    }
}

impl HttpRequestBody {
    /// The name of the resource.
    pub fn name(&self) -> (name: &'static str)
        ensures
            name@ == "requestBody"@,
    {
        "requestBody"
    }

    /// A body of which nothing was read.
    pub fn new() -> (body: HttpRequestBody)
        ensures
            body@ == BodyState::fresh(),
    {
        HttpRequestBody { peeked: None, done: false }
    }

    /// Whether the stream has to be polled before anything can be read.
    pub fn needs_poll(&self) -> (r: bool)
        ensures
            r == self@.needs_poll(),
    {
        self.peeked.is_none() && !self.done
    }

    /// Reads up to `limit` bytes. `polled` is what polling the stream answered; it counts
    /// only where the stream has to be polled. A chunk that is too large is split, and its
    /// rest is kept for the next read. The end of the body reads as no bytes.
    pub fn read(&mut self, limit: usize, polled: Poll<Option<Result<Bytes, HttpError>>>) -> (r:
        Poll<Result<Bytes, HttpError>>)
        ensures
            read_bytes(r) == old(self)@.read_result(limit as nat, polled_bytes(polled)),
            final(self)@ == old(self)@.after_read(limit as nat, polled_bytes(polled)),
    {
        if self.peeked.is_none() && !self.done {
            match polled {
                Poll::Pending => {
                    return Poll::Pending;
                },
                Poll::Ready(None) => {
                    self.done = true;
                },
                Poll::Ready(Some(item)) => {
                    self.peeked = Some(item);
                },
            }
        }
        match self.peeked.take() {
            None => {
                self.done = true;
                Poll::Ready(Ok(chunk::chunk_from_vec(Vec::new())))
            },
            Some(Err(error)) => Poll::Ready(Err(error)),
            Some(Ok(bytes)) => {
                if bytes.len() <= limit {
                    Poll::Ready(Ok(bytes))
                } else {
                    let mut rest = bytes;
                    let front = rest.split_to(limit);
                    self.peeked = Some(Ok(rest));
                    Poll::Ready(Ok(front))
                }
            },
        }
    }
}

/// The writer of a response's stream, as a resource.
pub struct HttpResponseBody {
    sender: Option<tokio::sync::mpsc::Sender<Bytes>>,
}

/// How a write ended.
#[derive(Debug, PartialEq, Eq)]
pub enum WriteOutcome {
    /// All of the buffer was written.
    Full {
        /// The number of bytes written.
        nwritten: usize,
    },
}

impl HttpResponseBody {
    /// Whether the stream can still be written.
    pub closed spec fn is_open(&self) -> bool {
        self.sender is Some
    }

    /// The end of the queue that a written buffer goes into.
    pub closed spec fn queue(&self) -> Option<tokio::sync::mpsc::Sender<Bytes>> {
        self.sender
    }

    /// The name of the resource.
    pub fn name(&self) -> (name: &'static str)
        ensures
            name@ == "responseBody"@,
    {
        "responseBody"
    }

    /// A writer that puts buffers into a queue.
    pub fn new(sender: tokio::sync::mpsc::Sender<Bytes>) -> (body: HttpResponseBody)
        ensures
            body.is_open(),
            body.queue() == Some(sender),
    {
        HttpResponseBody { sender: Some(sender) }
    }

    /// Whether the stream can still be written.
    pub fn can_write(&self) -> (r: bool)
        ensures
            r == self.is_open(),
    {
        self.sender.is_some()
    }

    /// The end of the queue to put a buffer into.
    pub fn sender(&self) -> (sender: &tokio::sync::mpsc::Sender<Bytes>)
        requires
            self.is_open(),
        ensures
            Some(*sender) == self.queue(),
    {
        self.sender.as_ref().unwrap()
    }

    /// How a write ends, where `sent` says whether the queue took the buffer: in full, or
    /// with an error if the reader of the queue is gone.
    pub fn write(&self, buf: &Bytes, sent: bool) -> (r: Result<WriteOutcome, HttpError>)
        requires
            self.is_open(),
        ensures
            match r {
                Ok(WriteOutcome::Full { nwritten }) => sent && nwritten == chunk::chunk_bytes(
                    *buf,
                ).len(),
                Err(error) => !sent && error == HttpError::WriteFailed,
            },
    {
        let nwritten = buf.len();
        if sent {
            Ok(WriteOutcome::Full { nwritten })
        } else {
            Err(HttpError::WriteFailed)
        }
    }

    /// Closes the stream: nothing can be written any more.
    pub fn close(&mut self)
        ensures
            !final(self).is_open(),
            final(self).queue() is None,
    {
        self.sender = None;
    }
}

/// A request's body together with what went into it and what was read from it.
pub struct BodyHistory {
    /// The body itself.
    pub state: BodyState,
    /// The data that the stream yielded, one chunk after the other.
    pub fed: Seq<u8>,
    /// The data that was read, one portion after the other.
    pub read: Seq<u8>,
}

impl BodyHistory {
    /// A body with no past.
    pub open spec fn fresh() -> Self {
        BodyHistory { state: BodyState::fresh(), fed: Seq::empty(), read: Seq::empty() }
    }

    /// One more read, of up to `limit` bytes.
    pub open spec fn then_read(
        self,
        limit: nat,
        polled: Poll<Option<Result<Seq<u8>, HttpError>>>,
    ) -> Self {
        BodyHistory {
            state: self.state.after_read(limit, polled),
            fed: if self.state.needs_poll() {
                match polled {
                    Poll::Ready(Some(Ok(bytes))) => self.fed + bytes,
                    _ => self.fed,
                }
            } else {
                self.fed
            },
            read: match self.state.read_result(limit, polled) {
                Poll::Ready(Ok(bytes)) => self.read + bytes,
                _ => self.read,
            },
        }
    }

    /// A fresh body after a series of reads.
    pub open spec fn after(
        reads: Seq<(nat, Poll<Option<Result<Seq<u8>, HttpError>>>)>,
    ) -> Self
        decreases reads.len(),
    {
        if reads.len() == 0 {
            Self::fresh()
        } else {
            Self::after(reads.drop_last()).then_read(reads.last().0, reads.last().1)
        }
    }
}

/// Whatever the portions in which a body is read, what was read and what is still buffered
/// are together exactly the data that the stream yielded, in order.
pub proof fn law_reads_reassemble_the_body(
    reads: Seq<(nat, Poll<Option<Result<Seq<u8>, HttpError>>>)>,
)
    ensures
        ({
            let h = BodyHistory::after(reads);
            h.read + h.state.buffered() == h.fed
        }),
    decreases reads.len(),
{
    if reads.len() > 0 {
        law_reads_reassemble_the_body(reads.drop_last());
        let before = BodyHistory::after(reads.drop_last());
        let limit = reads.last().0;
        let polled = reads.last().1;
        let h = BodyHistory::after(reads);
        match before.state.front(polled) {
            Poll::Ready(Some(Ok(bytes))) => {
                if bytes.len() > limit {
                    assert(bytes.take(limit as int) + bytes.skip(limit as int) =~= bytes);
                }
                assert(h.read + h.state.buffered() =~= before.read + bytes);
                assert(before.read + before.state.buffered() =~= before.fed);
            },
            _ => {},
        }
        assert(h.read + h.state.buffered() =~= h.fed);
    }
}

/// A read never gives more bytes than were asked for.
pub proof fn law_read_keeps_to_its_limit(
    state: BodyState,
    limit: nat,
    polled: Poll<Option<Result<Seq<u8>, HttpError>>>,
)
    ensures
        state.read_result(limit, polled) matches Poll::Ready(Ok(bytes)) ==> bytes.len() <= limit,
{
}

/// No empty chunk is buffered.
pub open spec fn no_empty_chunk(item: Option<Result<Seq<u8>, HttpError>>) -> bool {
    item matches Some(Ok(bytes)) ==> bytes.len() > 0
}

/// The stream of a request's data yields no empty chunk and no error.
pub proof fn law_stream_yields_no_empty_chunk(frame: FramePoll)
    ensures
        polled_bytes(next_item(frame)) matches Poll::Ready(item) ==> no_empty_chunk(item),
        !(next_item(frame) matches Poll::Ready(Some(Err(_)))),
{
}

/// Since the stream yields no empty chunk, a read of at least one byte that gives none means
/// the end of the body, and every read after it gives none either.
pub proof fn law_empty_read_means_end(
    state: BodyState,
    limit: nat,
    polled: Poll<Option<Result<Seq<u8>, HttpError>>>,
    later_limit: nat,
    later: Poll<Option<Result<Seq<u8>, HttpError>>>,
)
    requires
        limit > 0,
        no_empty_chunk(state.peeked),
        polled matches Poll::Ready(item) ==> no_empty_chunk(item),
    ensures
        no_empty_chunk(state.after_read(limit, polled).peeked),
        state.read_result(limit, polled) matches Poll::Ready(Ok(bytes)) && bytes.len() == 0 ==> {
            let ended = state.after_read(limit, polled);
            &&& ended.done
            &&& ended.read_result(later_limit, later) == Poll::<Result<Seq<u8>, HttpError>>::Ready(
                Ok(Seq::empty()),
            )
            &&& ended.after_read(later_limit, later) == ended
        },
{
}

/// The data that a stream yields for a series of polled frames, one item after the other.
pub open spec fn yielded(frames: Seq<FramePoll>) -> Seq<u8>
    decreases frames.len(),
{
    if frames.len() == 0 {
        Seq::empty()
    } else {
        match next_item(frames.last()) {
            Poll::Ready(Some(Ok(bytes))) => yielded(frames.drop_last()) + chunk::chunk_bytes(bytes),
            _ => yielded(frames.drop_last()),
        }
    }
}

/// The data in a series of frames, one data frame after the other.
pub open spec fn data_in(frames: Seq<FramePoll>) -> Seq<u8>
    decreases frames.len(),
{
    if frames.len() == 0 {
        Seq::empty()
    } else {
        match frames.last() {
            FramePoll::Data(bytes) => data_in(frames.drop_last()) + chunk::chunk_bytes(bytes),
            _ => data_in(frames.drop_last()),
        }
    }
}

/// No data is lost between the frames of a request and the stream of its body: whatever frames
/// are polled, the stream yields exactly the bytes of the data frames, in order.
pub proof fn law_stream_yields_all_data(frames: Seq<FramePoll>)
    ensures
        yielded(frames) == data_in(frames),
    decreases frames.len(),
{
    if frames.len() > 0 {
        law_stream_yields_all_data(frames.drop_last());
        assert(yielded(frames) =~= data_in(frames));
    }
}

/// What the stream makes of a frame: data with at least one byte is yielded as it is; the end,
/// and nothing but the end, ends the stream; anything else is waited out.
pub proof fn law_stream_answers(frame: FramePoll, bytes: Bytes)
    ensures
        chunk::chunk_bytes(bytes).len() > 0 ==> next_item(FramePoll::Data(bytes)) == Poll::<
            Option<Result<Bytes, HttpError>>,
        >::Ready(Some(Ok(bytes))),
        chunk::chunk_bytes(bytes).len() == 0 ==> next_item(FramePoll::Data(bytes)) is Pending,
        next_item(frame) == Poll::<Option<Result<Bytes, HttpError>>>::Ready(None) <==> frame is End,
        !(frame is Data) && !(frame is End) ==> next_item(frame) is Pending,
{
}

/// What a read takes from the front of the body and what it leaves there. Where bytes are at the
/// front, the read gives all of them that fit, and the rest stays at the front.
pub proof fn law_read_takes_what_fits(
    state: BodyState,
    limit: nat,
    bytes: Seq<u8>,
    polled: Poll<Option<Result<Seq<u8>, HttpError>>>,
)
    requires
        state.peeked == Some(Ok::<Seq<u8>, HttpError>(bytes)) || (state.peeked is None
            && !state.done && polled == Poll::Ready(Some(Ok::<Seq<u8>, HttpError>(bytes)))),
    ensures
        state.read_result(limit, polled) matches Poll::Ready(Ok(part)) && {
            let after = state.after_read(limit, polled);
            &&& part.len() == limit || part.len() == bytes.len()
            &&& part.len() <= limit
            &&& part + after.buffered() == bytes
            &&& part.len() < bytes.len() ==> after.peeked == Some(
                Ok::<Seq<u8>, HttpError>(bytes.skip(part.len() as int)),
            )
            &&& part.len() == bytes.len() ==> after.peeked is None
            &&& after.done == state.done
        },
{
    if bytes.len() > limit {
        assert(bytes.take(limit as int) + bytes.skip(limit as int) =~= bytes);
    } else {
        assert(bytes + Seq::<u8>::empty() =~= bytes);
    }
}

/// What a read answers where no bytes are at the front of the body. An error there is given
/// once. At the end the read gives no bytes, then and ever after. While the stream has nothing
/// yet, the read has to wait and changes nothing.
pub proof fn law_read_without_bytes(
    state: BodyState,
    limit: nat,
    error: HttpError,
    polled: Poll<Option<Result<Seq<u8>, HttpError>>>,
)
    ensures
        state.peeked == Some(Err::<Seq<u8>, HttpError>(error)) || (state.needs_poll() && polled
            == Poll::Ready(Some(Err::<Seq<u8>, HttpError>(error)))) ==> {
            &&& state.read_result(limit, polled) == Poll::Ready(Err::<Seq<u8>, HttpError>(error))
            &&& state.after_read(limit, polled) == BodyState { peeked: None, ..state }
        },
        state.peeked is None && (state.done || polled == Poll::Ready(
            None::<Result<Seq<u8>, HttpError>>,
        )) ==> {
            &&& state.read_result(limit, polled) == Poll::Ready(
                Ok::<Seq<u8>, HttpError>(Seq::empty()),
            )
            &&& state.after_read(limit, polled) == BodyState { peeked: None, done: true }
        },
        state.needs_poll() && polled is Pending ==> {
            &&& state.read_result(limit, polled) is Pending
            &&& state.after_read(limit, polled) == state
        },
        state.needs_poll() <==> state.peeked is None && !state.done,
        BodyState::fresh().needs_poll(),
{
}

/// What is polled and what is read is looked at by its bytes, and by nothing else.
pub proof fn law_bytes_are_what_counts(bytes: Bytes, error: HttpError)
    ensures
        polled_bytes(Poll::Ready(Some(Ok(bytes)))) == Poll::Ready(
            Some(Ok::<Seq<u8>, HttpError>(chunk::chunk_bytes(bytes))),
        ),
        polled_bytes(Poll::Ready(Some(Err(error)))) == Poll::Ready(
            Some(Err::<Seq<u8>, HttpError>(error)),
        ),
        polled_bytes(Poll::Ready(None)) == Poll::Ready(None::<Result<Seq<u8>, HttpError>>),
        polled_bytes(Poll::Pending) is Pending,
        read_bytes(Poll::Ready(Ok(bytes))) == Poll::Ready(
            Ok::<Seq<u8>, HttpError>(chunk::chunk_bytes(bytes)),
        ),
        read_bytes(Poll::Ready(Err(error))) == Poll::Ready(Err::<Seq<u8>, HttpError>(error)),
        read_bytes(Poll::Pending) is Pending,
{
}

} // verus!
