//! A response, and its body on the way out.

use crate::http::channels;
use crate::http::chunk;
use crate::http::error::HttpError;
use crate::http::pair;
use crate::http::pair::{HttpPair, ResourceId, Tracker};
use crate::poll::Poll;
use bytes::Bytes;
use hyper::HeaderMap;
use slab::Slab;
use vstd::prelude::*;

verus! {

/// How much is read from a resource at a time.
pub const READ_LIMIT: usize = 65536;

/// The body of a response. Every body but a finished one knows the index of its request.
pub enum ResponseBytesInner {
    /// A completed stream.
    Done,
    /// A static buffer of bytes, sent in one fell swoop.
    Bytes(usize, Bytes),
    /// A resource stream, piped in fast mode, and whether to close the resource at its end.
    Resource(usize, bool, ResourceId),
    /// A stream that the handler writes, transported via a queue.
    V8Stream(usize, tokio::sync::mpsc::Receiver<Bytes>),
}

/// The body of a response as the server sees it.
pub struct ResponseBytes(pub ResponseBytesInner);

/// A response.
pub struct Response {
    /// The status code.
    pub status: u16,
    /// The headers.
    pub headers: HeaderMap,
    /// The body.
    pub body: ResponseBytes,
}

/// What polling the source of a body answered.
pub enum SourcePoll {
    /// Nothing yet.
    Pending,
    /// Some bytes. A resource that has come to its end gives none.
    Chunk(Bytes),
    /// The writer of a queue is gone.
    End,
    /// The resource could not be read.
    Failed(HttpError),
}

/// What a body answers when it is polled, and what the caller has to do about its source.
pub struct FrameStep {
    /// The next frame, the end, or neither yet.
    pub frame: Poll<Option<Result<Bytes, HttpError>>>,
    /// Whether the resource has to be closed.
    pub close: bool,
    /// How much to read from the resource next, if a new read has to be started.
    pub read: Option<usize>,
    /// Whether the tracker heard of the end of the response, where it came to its end.
    pub reported: Result<(), HttpError>,
}

impl ResponseBytesInner {
    /// The index of the request that the body belongs to.
    pub open spec fn index(self) -> Option<usize> {
        match self {
            ResponseBytesInner::Done => None,
            ResponseBytesInner::Bytes(index, _) => Some(index),
            ResponseBytesInner::Resource(index, _, _) => Some(index),
            ResponseBytesInner::V8Stream(index, _) => Some(index),
        }
    }

    /// The number of bytes still to come, where it is known.
    pub open spec fn size(self) -> Option<nat> {
        match self {
            ResponseBytesInner::Done => Some(0),
            ResponseBytesInner::Bytes(_, bytes) => Some(chunk::chunk_bytes(bytes).len()),
            ResponseBytesInner::Resource(_, _, _) => None,
            ResponseBytesInner::V8Stream(_, _) => None,
        }
    }

    /// The body can be finished: its request is in the table, and the table holds no other
    /// unfinished body for it.
    pub open spec fn can_finalize(self, table: Map<usize, HttpPair>) -> bool {
        self.index() matches Some(index) ==> {
            &&& table.contains_key(index)
            &&& table[index].response matches Some(response) ==> response.body.0 is Done
        }
    }

    /// The table after the body was finished: without the request.
    pub open spec fn table_after(self, table: Map<usize, HttpPair>) -> Map<usize, HttpPair> {
        match self.index() {
            Some(index) => table.remove(index),
            None => table,
        }
    }

    /// Who wants to know how the body ended.
    pub open spec fn tracker(self, table: Map<usize, HttpPair>) -> Option<Tracker> {
        match self.index() {
            Some(index) => table[index].tracker,
            None => None,
        }
    }

    /// The number of bytes still to come, where it is known.
    pub fn len(&self) -> (len: Option<usize>)
        ensures
            match len {
                Some(n) => self.size() == Some(n as nat),
                None => self.size() is None,
            },
    {
        match self {
            ResponseBytesInner::Done => Some(0),
            ResponseBytesInner::Bytes(_, bytes) => Some(bytes.len()),
            ResponseBytesInner::Resource(_, _, _) => None,
            ResponseBytesInner::V8Stream(_, _) => None,
        }
    }

    /// Finishes the body and forgets its request. Gives back the body as it was, and who
    /// wants to know how it ended.
    pub fn detach(&mut self, slab: &mut Slab<HttpPair>) -> (r: (
        ResponseBytesInner,
        Option<Tracker>,
    ))
        requires
            old(self).can_finalize(pair::pairs(*old(slab))),
        ensures
            r.0 == *old(self),
            r.1 == old(self).tracker(pair::pairs(*old(slab))),
            *final(self) == ResponseBytesInner::Done,
            pair::pairs(*final(slab)) == old(self).table_after(pair::pairs(*old(slab))),
            pair::bodies_know_their_index(pair::pairs(*old(slab)))
                ==> pair::bodies_know_their_index(pair::pairs(*final(slab))),
    {
        let mut current = ResponseBytesInner::Done;
        core::mem::swap(self, &mut current);
        let index = match &current {
            ResponseBytesInner::Done => None,
            ResponseBytesInner::Bytes(index, _) => Some(*index),
            ResponseBytesInner::Resource(index, _, _) => Some(*index),
            ResponseBytesInner::V8Stream(index, _) => Some(*index),
        };
        match index {
            Some(index) => {
                let pair = pair::slab_remove(slab, index);
                (current, pair.tracker)
            },
            None => (current, None),
        }
    }

    /// Finishes the body, forgets its request, and tells the tracker whether all of the
    /// response was written. Gives back the body as it was, and an error where the tracker
    /// is gone.
    pub fn finalize(&mut self, slab: &mut Slab<HttpPair>, success: bool) -> (r: (
        ResponseBytesInner,
        Result<(), HttpError>,
    ))
        requires
            old(self).can_finalize(pair::pairs(*old(slab))),
        ensures
            r.0 == *old(self),
            *final(self) == ResponseBytesInner::Done,
            pair::pairs(*final(slab)) == old(self).table_after(pair::pairs(*old(slab))),
            pair::bodies_know_their_index(pair::pairs(*old(slab)))
                ==> pair::bodies_know_their_index(pair::pairs(*final(slab))),
            was_reported(old(self).tracker(pair::pairs(*old(slab))), success, r.1),
    {
        let (current, tracker) = self.detach(slab);
        (current, report(tracker, success))
    }
}

/// What it means whether the word reached the tracker.
pub open spec fn report_of(sent: Result<(), Result<bool, HttpError>>) -> Result<(), HttpError> {
    match sent {
        Ok(()) => Ok(()),
        Err(Ok(success)) => Err(HttpError::TrackerDropped(success)),
        Err(Err(error)) => Err(error),
    }
}

/// The tracker, if there is one, was told whether all of the response was written, and the
/// result says whether the word reached it.
pub open spec fn was_reported(
    tracker: Option<Tracker>,
    success: bool,
    result: Result<(), HttpError>,
) -> bool {
    match tracker {
        Some(tracker) => {
            &&& exists|sent: Result<(), Result<bool, HttpError>>| #[trigger]
                channels::tracker_answered(tracker, Ok(success), sent) && result == report_of(sent)
            &&& result is Ok || result == Err::<(), HttpError>(HttpError::TrackerDropped(success))
        },
        None => result is Ok,
    }
}

/// What it means whether the word reached the tracker.
pub fn reported(sent: Result<(), Result<bool, HttpError>>) -> (r: Result<(), HttpError>)
    ensures
        r == report_of(sent),
{
    match sent {
        Ok(()) => Ok(()),
        Err(Ok(success)) => Err(HttpError::TrackerDropped(success)),
        Err(Err(error)) => Err(error),
    }
}

/// Tells a tracker, if there is one, whether all of the response was written.
pub fn report(tracker: Option<Tracker>, success: bool) -> (r: Result<(), HttpError>)
    ensures
        was_reported(tracker, success, r),
{
    match tracker {
        Some(tracker) => reported(channels::send_to_tracker(tracker, Ok(success))),
        None => Ok(()),
    }
}

impl ResponseBytes {
    /// The source of the body can answer this: a resource is read until it gives no more
    /// bytes, a queue until its writer is gone.
    pub open spec fn source_answers(self, source: SourcePoll) -> bool {
        match self.0 {
            ResponseBytesInner::Resource(_, _, _) => !(source is End),
            ResponseBytesInner::V8Stream(_, _) => !(source is Failed),
            _ => true,
        }
    }

    /// Whether polling the body brings it to its end.
    pub open spec fn ends(self, source: SourcePoll) -> bool {
        match self.0 {
            ResponseBytesInner::Bytes(_, _) => true,
            ResponseBytesInner::V8Stream(_, _) => source is End,
            _ => false,
        }
    }

    /// What polling the body answers.
    pub open spec fn frame(self, source: SourcePoll) -> Poll<Option<Result<Bytes, HttpError>>> {
        match self.0 {
            ResponseBytesInner::Done => Poll::Ready(None),
            ResponseBytesInner::Bytes(_, bytes) => Poll::Ready(Some(Ok(bytes))),
            ResponseBytesInner::Resource(_, _, _) => match source {
                SourcePoll::Chunk(bytes) => if chunk::chunk_bytes(bytes).len() == 0 {
                    Poll::Ready(None)
                } else {
                    Poll::Ready(Some(Ok(bytes)))
                },
                SourcePoll::Failed(error) => Poll::Ready(Some(Err(error))),
                _ => Poll::Pending,
            },
            ResponseBytesInner::V8Stream(_, _) => match source {
                SourcePoll::Chunk(bytes) => Poll::Ready(Some(Ok(bytes))),
                SourcePoll::End => Poll::Ready(None),
                _ => Poll::Pending,
            },
        }
    }

    /// Whether the resource has to be closed: it gave no more bytes, and it was to be
    /// closed at its end.
    pub open spec fn closes(self, source: SourcePoll) -> bool {
        &&& self.0 matches ResponseBytesInner::Resource(_, auto_close, _) && auto_close
        &&& source matches SourcePoll::Chunk(bytes) && chunk::chunk_bytes(bytes).len() == 0
    }

    /// Whether the resource has to be read again.
    pub open spec fn reads_on(self, source: SourcePoll) -> bool {
        &&& self.0 is Resource
        &&& source matches SourcePoll::Chunk(bytes) && chunk::chunk_bytes(bytes).len() > 0
    }

    /// Asks the body for its next frame, given what its source answered. A buffer is handed
    /// over whole and ends the response. A resource is read chunk by chunk; an empty chunk
    /// is its end. A queue is drained until its writer is gone, which ends the response.
    pub fn poll_frame(&mut self, slab: &mut Slab<HttpPair>, source: SourcePoll) -> (step: FrameStep)
        requires
            old(self).source_answers(source),
            old(self).ends(source) ==> old(self).0.can_finalize(pair::pairs(*old(slab))),
        ensures
            step.frame == old(self).frame(source),
            step.close == old(self).closes(source),
            step.read == (if old(self).reads_on(source) {
                Some(READ_LIMIT)
            } else {
                None
            }),
            old(self).0 matches ResponseBytesInner::Resource(_, auto_close, _) ==> match source {
                SourcePoll::Chunk(bytes) => if chunk::chunk_bytes(bytes).len() > 0 {
                    &&& step.frame == Poll::<Option<Result<Bytes, HttpError>>>::Ready(
                        Some(Ok(bytes)),
                    )
                    &&& step.read == Some(READ_LIMIT)
                    &&& !step.close
                } else {
                    &&& step.frame == Poll::<Option<Result<Bytes, HttpError>>>::Ready(None)
                    &&& step.read is None
                    &&& step.close == auto_close
                },
                _ => step.read is None && !step.close,
            },
            !(old(self).0 is Resource) ==> step.read is None && !step.close,
            old(self).ends(source) ==> {
                &&& final(self).0 is Done
                &&& pair::pairs(*final(slab)) == old(self).0.table_after(pair::pairs(*old(slab)))
                &&& was_reported(
                    old(self).0.tracker(pair::pairs(*old(slab))),
                    true,
                    step.reported,
                )
            },
            !old(self).ends(source) ==> {
                &&& *final(self) == *old(self)
                &&& pair::pairs(*final(slab)) == pair::pairs(*old(slab))
                &&& step.reported is Ok
            },
            pair::bodies_know_their_index(pair::pairs(*old(slab)))
                ==> pair::bodies_know_their_index(pair::pairs(*final(slab))),
    {
        match &self.0 {
            ResponseBytesInner::Done => FrameStep {
                frame: Poll::Ready(None),
                close: false,
                read: None,
                reported: Ok(()),
            },
            ResponseBytesInner::Bytes(_, _) => {
                let (current, reported) = self.0.finalize(slab, true);
                let frame = match current {
                    ResponseBytesInner::Bytes(_, bytes) => Poll::Ready(Some(Ok(bytes))),
                    _ => Poll::Ready(None),
                };
                FrameStep { frame, close: false, read: None, reported }
            },
            ResponseBytesInner::Resource(_, auto_close, _) => match source {
                SourcePoll::Chunk(bytes) => {
                    if bytes.is_empty() {
                        FrameStep {
                            frame: Poll::Ready(None),
                            close: *auto_close,
                            read: None,
                            reported: Ok(()),
                        }
                    } else {
                        FrameStep {
                            frame: Poll::Ready(Some(Ok(bytes))),
                            close: false,
                            read: Some(READ_LIMIT),
                            reported: Ok(()),
                        }
                    }
                },
                SourcePoll::Failed(error) => FrameStep {
                    frame: Poll::Ready(Some(Err(error))),
                    close: false,
                    read: None,
                    reported: Ok(()),
                },
                _ => FrameStep {
                    frame: Poll::Pending,
                    close: false,
                    read: None,
                    reported: Ok(()),
                },
            },
            ResponseBytesInner::V8Stream(_, _) => match source {
                SourcePoll::Chunk(bytes) => FrameStep {
                    frame: Poll::Ready(Some(Ok(bytes))),
                    close: false,
                    read: None,
                    reported: Ok(()),
                },
                SourcePoll::End => {
                    let (_, reported) = self.0.finalize(slab, true);
                    FrameStep { frame: Poll::Ready(None), close: false, read: None, reported }
                },
                _ => FrameStep {
                    frame: Poll::Pending,
                    close: false,
                    read: None,
                    reported: Ok(()),
                },
            },
        }
    }

    /// Whether no frame will come any more.
    pub fn is_end_stream(&self) -> (end: bool)
        ensures
            end == (self.0 is Done),
    {
        matches!(self.0, ResponseBytesInner::Done)
    }

    /// The exact number of bytes to come, where it is known.
    pub fn size_hint(&self) -> (size: Option<u64>)
        ensures
            match size {
                Some(n) => self.0.size() == Some(n as nat),
                None => self.0.size() is None,
            },
    {
        match self.0.len() {
            Some(size) => Some(size as u64),
            None => None,
        }
    }

    /// Gives up the body. If it was not finished before, the tracker hears that the response
    /// was not written in full. A buffer that was sent and a queue that was drained are
    /// finished; a piped resource is not, even where it gave its last chunk.
    pub fn drop(self, slab: &mut Slab<HttpPair>) -> (r: Result<(), HttpError>)
        requires
            self.0.can_finalize(pair::pairs(*old(slab))),
        ensures
            pair::pairs(*final(slab)) == self.0.table_after(pair::pairs(*old(slab))),
            pair::bodies_know_their_index(pair::pairs(*old(slab)))
                ==> pair::bodies_know_their_index(pair::pairs(*final(slab))),
            was_reported(self.0.tracker(pair::pairs(*old(slab))), false, r),
    {
        let mut body = self;
        let (_, reported) = body.0.finalize(slab, false);
        reported
    }
}

/// A buffer comes out as it went in, in one frame that ends the response. Its length is
/// known beforehand, and after it nothing comes.
pub proof fn law_buffer_comes_out_whole(
    index: usize,
    buffer: Bytes,
    source: SourcePoll,
    later: SourcePoll,
)
    ensures
        ({
            let body = ResponseBytes(ResponseBytesInner::Bytes(index, buffer));
            let done = ResponseBytes(ResponseBytesInner::Done);
            &&& body.frame(source) == Poll::<Option<Result<Bytes, HttpError>>>::Ready(
                Some(Ok(buffer)),
            )
            &&& body.ends(source)
            &&& body.0.size() == Some(chunk::chunk_bytes(buffer).len())
            &&& done.frame(later) == Poll::<Option<Result<Bytes, HttpError>>>::Ready(None)
            &&& !done.ends(later)
            &&& done.0.size() == Some(0nat)
        }),
{
}

/// A finished body can be finished again, and nothing happens: there is nothing left to
/// forget, and nobody left to tell.
pub proof fn law_finishing_twice_does_nothing(table: Map<usize, HttpPair>)
    ensures
        ResponseBytesInner::Done.can_finalize(table),
        ResponseBytesInner::Done.table_after(table) == table,
        ResponseBytesInner::Done.tracker(table) is None,
{
}

/// A body that is piped or streamed hands on every chunk of its source unchanged, and never
/// an empty one from a resource.
pub proof fn law_chunks_pass_unchanged(body: ResponseBytes, buffer: Bytes)
    requires
        body.0 is Resource || body.0 is V8Stream,
    ensures
        ({
            let frame = body.frame(SourcePoll::Chunk(buffer));
            if body.0 is Resource && chunk::chunk_bytes(buffer).len() == 0 {
                frame == Poll::<Option<Result<Bytes, HttpError>>>::Ready(None)
            } else {
                frame == Poll::<Option<Result<Bytes, HttpError>>>::Ready(Some(Ok(buffer)))
            }
        }),
        !body.ends(SourcePoll::Chunk(buffer)),
{
}

/// The bytes of a series of buffers, one after the other.
pub open spec fn joined(chunks: Seq<Bytes>) -> Seq<u8>
    decreases chunks.len(),
{
    if chunks.len() == 0 {
        Seq::empty()
    } else {
        chunk::chunk_bytes(chunks.first()) + joined(chunks.drop_first())
    }
}

/// What is sent when a resource answers its reads with these buffers, and whether the body came
/// to its end. A read is answered only if it was started: where a body does not ask for another
/// one, nothing more is sent.
pub open spec fn piped(body: ResponseBytes, chunks: Seq<Bytes>) -> (Seq<u8>, bool)
    decreases chunks.len(),
{
    if chunks.len() == 0 {
        (Seq::empty(), false)
    } else {
        let source = SourcePoll::Chunk(chunks.first());
        match body.frame(source) {
            Poll::Ready(Some(Ok(buffer))) => if body.reads_on(source) && !body.ends(source) {
                let rest = piped(body, chunks.drop_first());
                (chunk::chunk_bytes(buffer) + rest.0, rest.1)
            } else {
                (chunk::chunk_bytes(buffer), false)
            },
            Poll::Ready(None) => (Seq::empty(), true),
            _ => (Seq::empty(), false),
        }
    }
}

/// A resource is sent whole: whatever buffers it gives, as long as they are not empty, and of
/// whatever lengths, all of their bytes are sent in order, and the empty one that follows them
/// is the end.
pub proof fn law_resource_is_sent_whole(
    index: usize,
    auto_close: bool,
    rid: ResourceId,
    chunks: Seq<Bytes>,
    last: Bytes,
)
    requires
        forall|i: int|
            0 <= i < chunks.len() ==> chunk::chunk_bytes(#[trigger] chunks[i]).len() > 0,
        chunk::chunk_bytes(last).len() == 0,
    ensures
        piped(
            ResponseBytes(ResponseBytesInner::Resource(index, auto_close, rid)),
            chunks.push(last),
        ) == (joined(chunks), true),
        piped(ResponseBytes(ResponseBytesInner::Resource(index, auto_close, rid)), chunks) == (
            joined(chunks),
            false,
        ),
    decreases chunks.len(),
{
    let body = ResponseBytes(ResponseBytesInner::Resource(index, auto_close, rid));
    if chunks.len() == 0 {
        assert(chunks.push(last).first() == last);
    } else {
        let rest = chunks.drop_first();
        assert forall|i: int| 0 <= i < rest.len() implies chunk::chunk_bytes(
            #[trigger] rest[i],
        ).len() > 0 by {
            assert(rest[i] == chunks[i + 1]);
        }
        law_resource_is_sent_whole(index, auto_close, rid, rest, last);
        assert(chunks.push(last).first() == chunks.first());
        assert(chunks.push(last).drop_first() =~= rest.push(last));
        assert(chunk::chunk_bytes(chunks[0]).len() > 0);
    }
}

/// What a piped resource does with each answer of its source. A buffer with at least one byte,
/// of whatever length, is sent and the next read is started. An empty one ends the body, and
/// closes the resource exactly where that was asked for. An error is passed on. In no other
/// case is a read started or the resource closed, and the request stays in the table.
pub proof fn law_resource_steps(
    index: usize,
    auto_close: bool,
    rid: ResourceId,
    buffer: Bytes,
    error: HttpError,
    source: SourcePoll,
)
    ensures
        ({
            let body = ResponseBytes(ResponseBytesInner::Resource(index, auto_close, rid));
            let given = SourcePoll::Chunk(buffer);
            &&& chunk::chunk_bytes(buffer).len() > 0 ==> {
                &&& body.frame(given) == Poll::<Option<Result<Bytes, HttpError>>>::Ready(
                    Some(Ok(buffer)),
                )
                &&& body.reads_on(given)
                &&& !body.closes(given)
            }
            &&& chunk::chunk_bytes(buffer).len() == 0 ==> {
                &&& body.frame(given) == Poll::<Option<Result<Bytes, HttpError>>>::Ready(None)
                &&& !body.reads_on(given)
                &&& body.closes(given) == auto_close
            }
            &&& body.frame(SourcePoll::Failed(error)) == Poll::<
                Option<Result<Bytes, HttpError>>,
            >::Ready(Some(Err(error)))
            &&& body.frame(SourcePoll::Pending) is Pending
            &&& !(source is Chunk) ==> !body.reads_on(source) && !body.closes(source)
            &&& !body.ends(source)
            &&& READ_LIMIT == 64 * 1024
        }),
{
}

/// What a streamed body does with each answer of its queue. A buffer is sent, of whatever
/// length, and the body goes on. Only the end of the queue ends the body. No read is ever
/// started, and no resource closed.
pub proof fn law_queue_steps(
    index: usize,
    receiver: tokio::sync::mpsc::Receiver<Bytes>,
    buffer: Bytes,
    source: SourcePoll,
)
    ensures
        ({
            let body = ResponseBytes(ResponseBytesInner::V8Stream(index, receiver));
            &&& body.frame(SourcePoll::Chunk(buffer)) == Poll::<
                Option<Result<Bytes, HttpError>>,
            >::Ready(Some(Ok(buffer)))
            &&& body.frame(SourcePoll::End) == Poll::<Option<Result<Bytes, HttpError>>>::Ready(None)
            &&& body.frame(SourcePoll::Pending) is Pending
            &&& body.ends(source) <==> source is End
            &&& !body.reads_on(source)
            &&& !body.closes(source)
        }),
{
}

/// A buffer and a finished body ask nothing of a source: no read is started and no resource
/// closed, whatever is said to come from one.
pub proof fn law_buffers_need_no_source(index: usize, buffer: Bytes, source: SourcePoll)
    ensures
        ({
            let body = ResponseBytes(ResponseBytesInner::Bytes(index, buffer));
            let done = ResponseBytes(ResponseBytesInner::Done);
            &&& !body.reads_on(source) && !body.closes(source) && body.source_answers(source)
            &&& !done.reads_on(source) && !done.closes(source) && done.source_answers(source)
        }),
{
}

/// Every answer that a source can give is taken: a resource never says that a writer is gone,
/// a queue never fails, and that is all.
pub proof fn law_sources_are_heard(
    index: usize,
    auto_close: bool,
    rid: ResourceId,
    receiver: tokio::sync::mpsc::Receiver<Bytes>,
    source: SourcePoll,
)
    ensures
        ResponseBytes(ResponseBytesInner::Resource(index, auto_close, rid)).source_answers(source)
            <==> !(source is End),
        ResponseBytes(ResponseBytesInner::V8Stream(index, receiver)).source_answers(source)
            <==> !(source is Failed),
{
}

/// Every body but a finished one belongs to the request that it was made for, and its length is
/// known exactly where it is a buffer or finished.
pub proof fn law_bodies_belong_to_requests(
    index: usize,
    buffer: Bytes,
    auto_close: bool,
    rid: ResourceId,
    receiver: tokio::sync::mpsc::Receiver<Bytes>,
)
    ensures
        ResponseBytesInner::Bytes(index, buffer).index() == Some(index),
        ResponseBytesInner::Resource(index, auto_close, rid).index() == Some(index),
        ResponseBytesInner::V8Stream(index, receiver).index() == Some(index),
        ResponseBytesInner::Done.index() is None,
        ResponseBytesInner::Bytes(index, buffer).size() == Some(chunk::chunk_bytes(buffer).len()),
        ResponseBytesInner::Resource(index, auto_close, rid).size() is None,
        ResponseBytesInner::V8Stream(index, receiver).size() is None,
        ResponseBytesInner::Done.size() == Some(0nat),
{
}

/// Finishing a body takes its request out of the table and no other, and it is the tracker of
/// that request that is told.
pub proof fn law_finishing_takes_one_request(
    body: ResponseBytesInner,
    table: Map<usize, HttpPair>,
    index: usize,
    other: usize,
)
    requires
        body.index() == Some(index),
    ensures
        !body.table_after(table).contains_key(index),
        other != index ==> body.table_after(table).contains_key(other) == table.contains_key(other),
        other != index && table.contains_key(other) ==> body.table_after(table)[other]
            == table[other],
        body.tracker(table) == table[index].tracker,
        body.can_finalize(table) <==> table.contains_key(index) && (table[index].response is None
            || table[index].response->0.body.0 is Done),
{
}

/// Telling a tracker succeeds exactly where the word reached it; where it did not, the error
/// holds the word. Where there is no tracker there is nothing that can fail.
pub proof fn law_reports_are_faithful(
    tracker: Tracker,
    success: bool,
    result: Result<(), HttpError>,
    error: HttpError,
)
    ensures
        report_of(Ok(())) is Ok,
        report_of(Err(Ok(success))) == Err::<(), HttpError>(HttpError::TrackerDropped(success)),
        report_of(Err(Err(error))) == Err::<(), HttpError>(error),
        was_reported(Some(tracker), success, result) ==> {
            &&& exists|sent: Result<(), Result<bool, HttpError>>| #[trigger]
                channels::tracker_answered(tracker, Ok(success), sent) && (sent is Ok <==> result
                    is Ok)
            &&& result matches Err(e) ==> e == HttpError::TrackerDropped(success)
        },
        was_reported(None, success, result) <==> result is Ok,
{
}

} // verus!
