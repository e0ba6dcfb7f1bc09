//! Waiting for the handler of a request.

use crate::http::channels;
use crate::http::error::HttpError;
use crate::http::pair;
use crate::http::pair::{HttpPair, PromiseState};
use crate::http::request::Request;
use crate::http::response::Response;
use crate::poll::Poll;
use slab::Slab;
use vstd::prelude::*;

verus! {

/// The call of a request's handler, which may still be under way.
pub enum HttpCallbackFuture {
    /// The handler has completed.
    Ready(usize),
    /// The handler promised to complete.
    PromisePending(usize, tokio::sync::oneshot::Receiver<()>),
    /// The response was handed over; nothing will come any more.
    Completed,
}

impl HttpCallbackFuture {
    /// The index of the request whose response is to be handed over now. `heard` says
    /// whether the handler's promise was heard of.
    pub open spec fn due(self, heard: bool) -> Option<usize> {
        match self {
            HttpCallbackFuture::Ready(index) => Some(index),
            HttpCallbackFuture::PromisePending(index, _) => if heard {
                Some(index)
            } else {
                None
            },
            HttpCallbackFuture::Completed => None,
        }
    }

    /// What polling the future answers: the response that is due, as it stands in the table.
    pub open spec fn answer(self, table: Map<usize, HttpPair>, heard: bool) -> Poll<
        Result<Response, HttpError>,
    > {
        match self.due(heard) {
            Some(index) => Poll::Ready(Ok(table[index].response->0)),
            None => Poll::Pending,
        }
    }

    /// The table after the future was polled: without the response that was due.
    pub open spec fn table_after(self, table: Map<usize, HttpPair>, heard: bool) -> Map<
        usize,
        HttpPair,
    > {
        match self.due(heard) {
            Some(index) => table.insert(index, (HttpPair { response: None, ..table[index] })),
            None => table,
        }
    }

    /// Hands the response over once the handler has completed. `heard` says whether the
    /// channel of the promise has answered, be it with the handler's word or because the
    /// handler is gone.
    pub fn poll(&mut self, slab: &mut Slab<HttpPair>, heard: bool) -> (r: Poll<
        Result<Response, HttpError>,
    >)
        requires
            old(self).due(heard) matches Some(index) ==> pair::has_response(
                pair::pairs(*old(slab)),
                index,
            ),
        ensures
            r == old(self).answer(pair::pairs(*old(slab)), heard),
            pair::pairs(*final(slab)) == old(self).table_after(pair::pairs(*old(slab)), heard),
            *final(self) == (if *old(self) is Ready {
                HttpCallbackFuture::Completed
            } else {
                *old(self)
            }),
            pair::bodies_know_their_index(pair::pairs(*old(slab)))
                ==> pair::bodies_know_their_index(pair::pairs(*final(slab))),
    {
        let due = match self {
            HttpCallbackFuture::Ready(index) => {
                let index: usize = *index;
                *self = HttpCallbackFuture::Completed;
                Some(index)
            },
            HttpCallbackFuture::PromisePending(index, _) => {
                if heard {
                    Some(*index)
                } else {
                    None
                }
            },
            HttpCallbackFuture::Completed => None,
        };
        match due {
            Some(index) => match pair::slab_get_mut(slab, index) {
                Some(pair) => match pair.response.take() {
                    Some(response) => Poll::Ready(Ok(response)),
                    None => Poll::Pending,
                },
                None => Poll::Pending,
            },
            None => Poll::Pending,
        }
    }
}

/// The future awaits the response under an index: it holds the one end of a channel, and the
/// promise of the response holds the other.
pub open spec fn awaits(future: HttpCallbackFuture, index: usize, promise: PromiseState) -> bool {
    &&& future matches HttpCallbackFuture::PromisePending(i, receiver)
    &&& promise matches PromiseState::Waiting(sender)
    &&& i == index
    &&& channels::waiter_joined(sender, receiver)
}

/// The way from a request to its handler.
#[derive(Clone, Copy)]
pub struct HttpCallback {}

impl HttpCallback {
    /// Starts to wait for the response of a request. Whoever waited for it before does not
    /// any more.
    pub fn process_request(&self, slab: &mut Slab<HttpPair>, index: usize) -> (future:
        HttpCallbackFuture)
        requires
            pair::pairs(*old(slab)).contains_key(index),
        ensures
            awaits(future, index, pair::pairs(*final(slab))[index].promise),
            pair::pairs(*final(slab)) == pair::pairs(*old(slab)).insert(
                index,
                (HttpPair {
                    promise: pair::pairs(*final(slab))[index].promise,
                    ..pair::pairs(*old(slab))[index]
                }),
            ),
            pair::bodies_know_their_index(pair::pairs(*old(slab)))
                ==> pair::bodies_know_their_index(pair::pairs(*final(slab))),
    {
        let (tx, rx) = channels::waiter_channel();
        if let Some(pair) = pair::slab_get_mut(slab, index) {
            pair.promise = PromiseState::Waiting(tx);
        }
        HttpCallbackFuture::PromisePending(index, rx)
    }
}

/// Takes up a request that came in on a connection: enters it into the table and starts to
/// wait for its response. The index is to be announced to the handler.
pub fn serve_http(slab: &mut Slab<HttpPair>, callback: &HttpCallback, request: Request) -> (r: (
    usize,
    HttpCallbackFuture,
))
    ensures
        !pair::pairs(*old(slab)).contains_key(r.0),
        pair::pairs(*final(slab)) == pair::pairs(*old(slab)).insert(
            r.0,
            pair::pairs(*final(slab))[r.0],
        ),
        pair::fresh_pair(
            (HttpPair { promise: PromiseState::Idle, ..pair::pairs(*final(slab))[r.0] }),
            request,
        ),
        awaits(r.1, r.0, pair::pairs(*final(slab))[r.0].promise),
        pair::bodies_know_their_index(pair::pairs(*old(slab))) ==> pair::bodies_know_their_index(
            pair::pairs(*final(slab)),
        ),
{
    let index = pair::slab_insert(slab, request);
    let future = callback.process_request(slab, index);
    assert(pair::pairs(*slab) =~= pair::pairs(*old(slab)).insert(
        index,
        pair::pairs(*slab)[index],
    ));
    (index, future)
}

/// A request that is awaited is answered with its own response, and not before its promise was
/// heard of. Until then there is no answer, whatever became of the table, and the table stays
/// as it is; then the answer is the response that stands in the request's entry at that time.
pub proof fn law_response_waits_for_its_promise(
    future: HttpCallbackFuture,
    index: usize,
    promise: PromiseState,
    before: Map<usize, HttpPair>,
    later: Map<usize, HttpPair>,
)
    requires
        awaits(future, index, promise),
        pair::has_response(later, index),
    ensures
        future.answer(before, false) == Poll::<Result<Response, HttpError>>::Pending,
        future.table_after(before, false) == before,
        future.answer(later, true) == Poll::<Result<Response, HttpError>>::Ready(
            Ok(later[index].response->0),
        ),
        future.table_after(later, true)[index].response is None,
{
}

/// A handler that has completed is answered at once, whatever was heard; a future that was
/// completed is never answered again.
pub proof fn law_completed_handlers_are_answered_once(index: usize, heard: bool)
    ensures
        HttpCallbackFuture::Ready(index).due(heard) == Some(index),
        HttpCallbackFuture::Completed.due(heard) is None,
{
}

/// To hand a response over takes the response out of its request's entry and changes nothing
/// else: not the rest of that entry, and no other entry. Where nothing is due nothing changes.
pub proof fn law_handing_over_takes_the_response(
    future: HttpCallbackFuture,
    table: Map<usize, HttpPair>,
    heard: bool,
    index: usize,
    other: usize,
)
    requires
        table.contains_key(index),
    ensures
        future.due(heard) == Some(index) ==> {
            let after = future.table_after(table, heard);
            &&& future.answer(table, heard) == Poll::<Result<Response, HttpError>>::Ready(
                Ok(table[index].response->0),
            )
            &&& after.contains_key(index)
            &&& after[index].response is None
            &&& after[index].request == table[index].request
            &&& after[index].body == table[index].body
            &&& after[index].promise == table[index].promise
            &&& after[index].tracker == table[index].tracker
            &&& other != index ==> after.contains_key(other) == table.contains_key(other)
            &&& other != index && table.contains_key(other) ==> after[other] == table[other]
        },
        future.due(heard) is None ==> future.answer(table, heard) is Pending && future.table_after(
            table,
            heard,
        ) == table,
{
}

/// A future that awaits a response waits for the promise of that response, on the other end of
/// the promise's own channel.
pub proof fn law_awaiting_is_mutual(
    future: HttpCallbackFuture,
    index: usize,
    promise: PromiseState,
)
    ensures
        awaits(future, index, promise) <==> (future matches HttpCallbackFuture::PromisePending(
            i,
            receiver,
        ) && i == index && (promise matches PromiseState::Waiting(sender)
            && channels::waiter_joined(sender, receiver))),
{
}

} // verus!
