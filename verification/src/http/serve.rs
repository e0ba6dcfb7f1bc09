//! Serving connections: what the handler is told when serving starts, how it learns of
//! requests, and how it learns of the end of responses and of the server itself.

use crate::http::channels;
use crate::http::error::HttpError;
use crate::http::pair;
use crate::http::pair::{HttpPair, Tracker};
use crate::http::request;
use crate::http::response;
use crate::http::response::ResponseBytesInner;
use crate::raw::{AddressError, NetworkStream, NetworkStreamListener};
use slab::Slab;
use vstd::prelude::*;

verus! {

/// How many requests can be announced before the handler picks one up.
pub const ANNOUNCEMENTS: usize = 10;

/// The number that stands for the end of the server where the index of a request is
/// expected.
pub const SHUTDOWN: u32 = u32::MAX;

/// The URL that the handler of a listener is started with.
pub fn op_serve_http(listener: &NetworkStreamListener) -> (r: Result<String, AddressError>)
    ensures
        match listener.address() {
            Ok(address) => r matches Ok(url) && url@ == request::fallback_url(
                listener.kind(),
                address,
            ),
            Err(error) => r == Err::<String, AddressError>(error),
        },
{
    match listener.listen_address() {
        Ok(address) => Ok(request::req_fallback_url(listener.stream(), &address)),
        Err(error) => Err(error),
    }
}

/// The URL that the handler of a single connection is started with.
pub fn op_serve_http_on(stream: &NetworkStream) -> (r: Result<String, AddressError>)
    ensures
        match stream.address() {
            Ok(address) => r matches Ok(url) && url@ == request::fallback_url(
                stream.kind(),
                address,
            ),
            Err(error) => r == Err::<String, AddressError>(error),
        },
{
    match stream.local_address() {
        Ok(address) => Ok(request::req_fallback_url(stream.stream(), &address)),
        Err(error) => Err(error),
    }
}

/// The end of a channel on which the outcome of a response is awaited.
pub type Outcome = tokio::sync::oneshot::Receiver<Result<bool, HttpError>>;

/// The tracker is the one end of a channel whose other end was made to await the outcome.
pub open spec fn has_other_end(tracker: Option<Tracker>) -> bool {
    tracker is Some && exists|outcome: Outcome| #[trigger]
        channels::tracker_joined(tracker->0, outcome)
}

/// Asks to be told how the response under an index ends. Whoever tracked it before does not any
/// more. `server` is what the resource table answered about the server; where the server is
/// not there, nobody listens to the outcome, but the response is tracked all the same.
pub fn op_http_track(slab: &mut Slab<HttpPair>, index: usize, server: Result<(), HttpError>) -> (r:
    Result<Outcome, HttpError>)
    requires
        pair::pairs(*old(slab)).contains_key(index),
    ensures
        pair::pairs(*final(slab)) == pair::pairs(*old(slab)).insert(
            index,
            (HttpPair {
                tracker: pair::pairs(*final(slab))[index].tracker,
                ..pair::pairs(*old(slab))[index]
            }),
        ),
        has_other_end(pair::pairs(*final(slab))[index].tracker),
        match server {
            Ok(()) => r matches Ok(outcome) && channels::tracker_joined(
                pair::pairs(*final(slab))[index].tracker->0,
                outcome,
            ),
            Err(error) => r == Err::<Outcome, HttpError>(error),
        },
        pair::bodies_know_their_index(pair::pairs(*old(slab))) ==> pair::bodies_know_their_index(
            pair::pairs(*final(slab)),
        ),
{
    let (tx, rx) = channels::tracker_channel();
    if let Some(pair) = pair::slab_get_mut(slab, index) {
        pair.tracker = Some(tx);
    }
    assert(channels::tracker_joined(pair::pairs(*slab)[index].tracker->0, rx));
    match server {
        Ok(()) => Ok(rx),
        Err(error) => Err(error),
    }
}

/// What to make of the outcome of a response: only a response that was written in full is
/// a success. `heard` is the word of the response, or the error of the channel.
pub fn track_result(heard: Result<Result<bool, HttpError>, HttpError>) -> (r: Result<(), HttpError>)
    ensures
        r == match heard {
            Err(error) => Err::<(), HttpError>(error),
            Ok(Err(error)) => Err(error),
            Ok(Ok(true)) => Ok(()),
            Ok(Ok(false)) => Err(HttpError::IncompleteStream),
        },
{
    match heard {
        Err(error) => Err(error),
        Ok(Err(error)) => Err(error),
        Ok(Ok(true)) => Ok(()),
        Ok(Ok(false)) => Err(HttpError::IncompleteStream),
    }
}

/// The kinds of input and output errors that make a difference.
#[derive(Debug, Copy, Clone, PartialEq, Eq, Structural)]
pub enum IoErrorKind {
    /// The socket is not connected.
    NotConnected,
    /// Any other.
    Other,
}

/// What an error comes from.
#[derive(Debug, Copy, Clone, PartialEq, Eq, Structural)]
pub enum ErrorSource {
    /// Nothing else.
    Nothing,
    /// An input or output error.
    Io(IoErrorKind),
    /// An error of another type.
    Foreign,
}

/// Why a server stopped.
#[derive(Debug, PartialEq, Eq)]
pub struct ServeError {
    /// The text of the error.
    pub message: String,
    /// What the error comes from.
    pub source: ErrorSource,
}

impl ServeError {
    /// The error comes from a socket that is not connected any more, as happens when a server
    /// is shut down.
    pub open spec fn is_shutdown(self) -> bool {
        self.source == ErrorSource::Io(IoErrorKind::NotConnected)
    }
}

/// What happened while the next request was awaited.
pub enum WaitEvent {
    /// A request came in, under this index.
    Request(usize),
    /// No request will come any more.
    Closed,
    /// The task of the server could not be awaited.
    JoinFailed(ServeError),
    /// The server has stopped, with this result.
    Joined(Result<(), ServeError>),
}

/// What to do next while the next request is awaited.
pub enum WaitAction {
    /// Await the end of the server.
    Join,
    /// Stop with this result.
    Finish(Result<u32, ServeError>),
    /// Forget the server, and stop with this result.
    Forget(Result<u32, ServeError>),
}

/// The number by which a request is announced: its index, as far as it fits.
pub open spec fn announced(index: usize) -> u32 {
    (index as int % 0x1_0000_0000) as u32
}

/// What to do after an event.
pub open spec fn next_wait(event: WaitEvent) -> WaitAction {
    match event {
        WaitEvent::Request(index) => WaitAction::Finish(Ok(announced(index))),
        WaitEvent::Closed => WaitAction::Join,
        WaitEvent::JoinFailed(error) => WaitAction::Finish(Err(error)),
        WaitEvent::Joined(Ok(())) => WaitAction::Forget(Ok(SHUTDOWN)),
        WaitEvent::Joined(Err(error)) => WaitAction::Forget(
            if error.is_shutdown() {
                Ok(SHUTDOWN)
            } else {
                Err(error)
            },
        ),
    }
}

/// Waits for the next request, one step at a time. The end of the server is no error, nor
/// is it that the socket was not connected any more; it is announced by a number of its
/// own.
pub fn op_http_wait(event: WaitEvent) -> (action: WaitAction)
    ensures
        action == next_wait(event),
        event matches WaitEvent::Request(index) ==> (index < SHUTDOWN ==> (action matches
            WaitAction::Finish(Ok(number)) && number == index)),
        event is Closed <==> action is Join,
        event is Joined <==> action is Forget,
{
    match event {
        WaitEvent::Request(index) => {
            let wide: u64 = index as u64;
            let number: u32 = #[verifier::truncate]
            (wide as u32);
            assert(number == wide % 0x1_0000_0000u64) by (bit_vector)
                requires
                    number == wide as u32,
            ;
            WaitAction::Finish(Ok(number))
        },
        WaitEvent::Closed => WaitAction::Join,
        WaitEvent::JoinFailed(error) => WaitAction::Finish(Err(error)),
        WaitEvent::Joined(Ok(())) => WaitAction::Forget(Ok(SHUTDOWN)),
        WaitEvent::Joined(Err(error)) => {
            if matches!(error.source, ErrorSource::Io(IoErrorKind::NotConnected)) {
                WaitAction::Forget(Ok(SHUTDOWN))
            } else {
                WaitAction::Forget(Err(error))
            }
        },
    }
}

/// Whoever tracks a response is told how it ended: where the body of the response comes to its
/// end, the word is sent into the channel whose other end the tracking task holds.
pub proof fn law_outcome_reaches_who_tracks(
    table: Map<usize, HttpPair>,
    index: usize,
    outcome: Outcome,
    body: ResponseBytesInner,
    success: bool,
    result: Result<(), HttpError>,
)
    requires
        table[index].tracker matches Some(tracker) && channels::tracker_joined(tracker, outcome),
        body.index() == Some(index),
        response::was_reported(body.tracker(table), success, result),
    ensures
        exists|sender: Tracker, sent: Result<(), Result<bool, HttpError>>|
            {
                &&& channels::tracker_joined(sender, outcome)
                &&& #[trigger] channels::tracker_answered(sender, Ok(success), sent)
                &&& result == response::report_of(sent)
            },
{
}

/// Requests whose indices fit below the number that stands for the end are announced by
/// their index: two of them are never mixed up, nor taken for the end.
pub proof fn law_announcements_are_distinct(first: usize, second: usize)
    requires
        first < SHUTDOWN,
        second < SHUTDOWN,
    ensures
        announced(first) == first,
        announced(first) != SHUTDOWN,
        first != second ==> announced(first) != announced(second),
{
}

/// Once no request will come any more, waiting ends in one further step, and the server is
/// forgotten. Only an error other than a lost connection is passed on.
pub proof fn law_waiting_ends_with_the_server(result: Result<(), ServeError>)
    ensures
        next_wait(WaitEvent::Closed) == WaitAction::Join,
        next_wait(WaitEvent::Joined(result)) == WaitAction::Forget(
            match result {
                Err(error) => if error.is_shutdown() {
                    Ok(SHUTDOWN)
                } else {
                    Err(error)
                },
                Ok(()) => Ok(SHUTDOWN),
            },
        ),
{
}

/// A request whose index fits ends the wait with its index: the number is never taken for the
/// end of the server, and two requests under different indices never end in the same number.
/// An index that does not fit loses what is above 32 bits.
pub proof fn law_wait_announces_the_request(index: usize, other: usize)
    ensures
        next_wait(WaitEvent::Request(index)) matches WaitAction::Finish(Ok(number)) && {
            &&& number == index as int % 0x1_0000_0000
            &&& index < u32::MAX ==> number == index && number != SHUTDOWN
        },
        index < u32::MAX && other < u32::MAX && index != other ==> next_wait(
            WaitEvent::Request(index),
        ) != next_wait(WaitEvent::Request(other)),
{
    let first = announced(index);
    let second = announced(other);
    if index < u32::MAX && other < u32::MAX && index != other {
        assert(first != second);
        assert(next_wait(WaitEvent::Request(index)) == WaitAction::Finish(Ok(first)));
        assert(next_wait(WaitEvent::Request(other)) == WaitAction::Finish(Ok(second)));
    }
}

/// The end of the server: once no request comes any more the server is awaited. If it cannot be
/// awaited, that error is the result and the server is kept. If it stopped, it is forgotten, and
/// the result is the number of the end, unless it stopped with an error; such an error is
/// passed on unless it comes from a socket that is not connected.
pub proof fn law_wait_answers_the_end(error: ServeError)
    ensures
        next_wait(WaitEvent::Closed) is Join,
        next_wait(WaitEvent::JoinFailed(error)) == WaitAction::Finish(Err(error)),
        next_wait(WaitEvent::Joined(Ok(()))) == WaitAction::Forget(Ok(u32::MAX)),
        error.source == ErrorSource::Io(IoErrorKind::NotConnected) ==> next_wait(
            WaitEvent::Joined(Err(error)),
        ) == WaitAction::Forget(Ok(u32::MAX)),
        error.source != ErrorSource::Io(IoErrorKind::NotConnected) ==> next_wait(
            WaitEvent::Joined(Err(error)),
        ) == WaitAction::Forget(Err(error)),
{
}

/// A tracker that was just set is there, and reaches an outcome that was made with it.
pub proof fn law_tracker_reaches_an_outcome(tracker: Option<Tracker>)
    requires
        has_other_end(tracker),
    ensures
        tracker matches Some(sender) && exists|outcome: Outcome| #[trigger]
            channels::tracker_joined(sender, outcome),
{
}

} // verus!
