//! The table of requests in flight.
//!
//! Every request gets an entry in a slab, and its index is the name by which everything
//! else refers to the request until its response is finished.

use crate::http::error::HttpError;
use crate::http::headers;
use crate::http::request::Request;
use crate::http::response::{Response, ResponseBytes, ResponseBytesInner};
use slab::Slab;
use vstd::prelude::*;

verus! {

/// The id of a resource in the runtime's resource table.
pub type ResourceId = u32;

/// The end of a channel through which a task waits for a response.
pub type Waiter = tokio::sync::oneshot::Sender<()>;

/// The end of a channel through which a task learns whether all of a response was written.
pub type Tracker = tokio::sync::oneshot::Sender<Result<bool, HttpError>>;

/// How far the handler of a request has come.
pub enum PromiseState {
    /// Nothing waits for the response yet.
    Idle,
    /// A task waits for the response.
    Waiting(Waiter),
    /// The response is complete.
    Resolved,
}

/// A request and its response.
pub struct HttpPair {
    /// The request.
    pub request: Request,
    /// The response, until it is handed over.
    pub response: Option<Response>,
    /// The resource through which the request's body is read.
    pub body: Option<ResourceId>,
    /// How far the handler has come.
    pub promise: PromiseState,
    /// Who wants to know how the response ended.
    pub tracker: Option<Tracker>,
}

/// The slab: a table that picks the keys of its entries itself.
#[verifier::external_type_specification]
#[verifier::external_body]
#[verifier::reject_recursive_types(T)]
pub struct ExSlab<T>(slab::Slab<T>);

/// The entries of the table, by their index.
pub uninterp spec fn pairs(slab: slab::Slab<HttpPair>) -> Map<usize, HttpPair>;

/// No request at all.
pub open spec fn no_pairs() -> Map<usize, HttpPair> {
    Map::empty()
}

/// `Slab::with_capacity` gives an empty table with room for some entries. It panics where
/// the room exceeds the address space.
#[verifier::external_body]
fn slab_with_capacity(capacity: usize) -> (slab: Slab<HttpPair>)
    requires
        capacity <= 1024,
    ensures
        pairs(slab) == no_pairs(),
{
    Slab::with_capacity(capacity)
}

/// `Slab::insert` stores an entry under an index that was vacant, and answers the index.
/// Which of the vacant ones it is depends on what was removed before.
#[verifier::external_body]
fn slab_put(slab: &mut Slab<HttpPair>, pair: HttpPair) -> (index: usize)
    ensures
        !pairs(*old(slab)).contains_key(index),
        pairs(*final(slab)) == pairs(*old(slab)).insert(index, pair),
{
    slab.insert(pair)
}

/// `Slab::get` gives the entry under an index, if there is one.
#[verifier::external_body]
pub(crate) fn slab_get(slab: &Slab<HttpPair>, index: usize) -> (r: Option<&HttpPair>)
    ensures
        r is Some <==> pairs(*slab).contains_key(index),
        r matches Some(pair) ==> *pair == pairs(*slab)[index],
{
    slab.get(index)
}

/// `Slab::get_mut` gives the entry under an index for change, if there is one. The other
/// entries stay as they are.
#[verifier::external_body]
pub(crate) fn slab_get_mut(slab: &mut Slab<HttpPair>, index: usize) -> (r: Option<&mut HttpPair>)
    ensures
        match r {
            Some(pair) => {
                &&& pairs(*old(slab)).contains_key(index)
                &&& *pair == pairs(*old(slab))[index]
                &&& pairs(*final(slab)) == pairs(*old(slab)).insert(index, *final(pair))
            },
            None => {
                &&& !pairs(*old(slab)).contains_key(index)
                &&& pairs(*final(slab)) == pairs(*old(slab))
            },
        },
{
    slab.get_mut(index)
}

/// `Slab::remove` takes the entry under an index out of the table. It panics where there
/// is none.
#[verifier::external_body]
pub(crate) fn slab_remove(slab: &mut Slab<HttpPair>, index: usize) -> (pair: HttpPair)
    requires
        pairs(*old(slab)).contains_key(index),
    ensures
        pair == pairs(*old(slab))[index],
        pairs(*final(slab)) == pairs(*old(slab)).remove(index),
{
    slab.remove(index)
}

/// A request is in flight under the index, and its response was not handed over yet.
pub open spec fn has_response(table: Map<usize, HttpPair>, index: usize) -> bool {
    table.contains_key(index) && table[index].response is Some
}

/// The response body stored in an entry, if it refers to an entry at all, refers to the
/// entry in which it is stored.
pub open spec fn bodies_know_their_index(table: Map<usize, HttpPair>) -> bool {
    forall|index: usize|
        #![trigger table[index]]
        table.contains_key(index) ==> (table[index].response matches Some(response) ==> (
        response.body.0.index() matches Some(i) ==> i == index))
}

/// An empty table, with room for the number of requests that are usual.
pub fn new_slab() -> (slab: Slab<HttpPair>)
    ensures
        pairs(slab) == no_pairs(),
        bodies_know_their_index(pairs(slab)),
{
    slab_with_capacity(1024)
}

/// The entry of a request that just came in: an empty response with status 200, and
/// nothing else.
pub open spec fn fresh_pair(pair: HttpPair, request: Request) -> bool {
    &&& pair.request == request
    &&& pair.response matches Some(response) && {
        &&& response.status == 200
        &&& headers::header_map(response.headers) == headers::no_headers()
        &&& response.body.0 is Done
    }
    &&& pair.body is None
    &&& pair.promise is Idle
    &&& pair.tracker is None
}

/// Enters a request into the table, under an index that no other request has.
pub fn slab_insert(slab: &mut Slab<HttpPair>, request: Request) -> (index: usize)
    ensures
        !pairs(*old(slab)).contains_key(index),
        pairs(*final(slab)) == pairs(*old(slab)).insert(index, pairs(*final(slab))[index]),
        fresh_pair(pairs(*final(slab))[index], request),
        bodies_know_their_index(pairs(*old(slab))) ==> bodies_know_their_index(pairs(*final(slab))),
{
    let pair = HttpPair {
        request,
        response: Some(
            Response {
                status: 200,
                headers: headers::new_headers(),
                body: ResponseBytes(ResponseBytesInner::Done),
            },
        ),
        body: None,
        promise: PromiseState::Idle,
        tracker: None,
    };
    slab_put(slab, pair)
}

impl PromiseState {
    /// Marks the response as complete and gives back how far the handler had come.
    pub fn resolve(&mut self) -> (before: PromiseState)
        ensures
            before == *old(self),
            *final(self) == PromiseState::Resolved,
    {
        let mut before = PromiseState::Resolved;
        core::mem::swap(self, &mut before);
        before
    }
}

/// An operation on one request leaves every other request as it was.
pub proof fn law_other_requests_untouched(
    before: Map<usize, HttpPair>,
    index: usize,
    pair: HttpPair,
    other: usize,
)
    requires
        other != index,
    ensures
        before.insert(index, pair).contains_key(other) == before.contains_key(other),
        before.contains_key(other) ==> before.insert(index, pair)[other] == before[other],
        before.remove(index).contains_key(other) == before.contains_key(other),
        before.contains_key(other) ==> before.remove(index)[other] == before[other],
{
}

/// A request that was entered into the table and whose body was finished leaves no trace,
/// whatever happened to its entry in between.
pub proof fn law_finished_request_leaves_no_trace(
    before: Map<usize, HttpPair>,
    index: usize,
    pair: HttpPair,
    body: ResponseBytesInner,
)
    requires
        !before.contains_key(index),
        body.index() == Some(index),
    ensures
        body.table_after(before.insert(index, pair)) == before,
{
    assert(body.table_after(before.insert(index, pair)) =~= before);
}

/// The body of a response can be finished from the moment at which the response is handed
/// over.
pub proof fn law_handed_over_body_can_finish(table: Map<usize, HttpPair>, index: usize)
    requires
        bodies_know_their_index(table),
        has_response(table, index),
    ensures
        ({
            let body = table[index].response->0.body.0;
            let after = table.insert(index, (HttpPair { response: None, ..table[index] }));
            &&& body.can_finalize(after)
            &&& bodies_know_their_index(after)
        }),
{
}

/// The body of a response that was handed over stays finishable: a change of any entry that
/// does not bring the response back, and the removal of any other entry, leave its request in
/// the table and the response handed over.
pub proof fn law_handed_over_body_stays_finishable(
    table: Map<usize, HttpPair>,
    index: usize,
    body: ResponseBytesInner,
    changed: usize,
    pair: HttpPair,
)
    requires
        body.index() == Some(index),
        table.contains_key(index),
        table[index].response is None,
        changed == index ==> pair.response is None,
    ensures
        ({
            let after = table.insert(changed, pair);
            &&& body.can_finalize(after)
            &&& after.contains_key(index)
            &&& after[index].response is None
        }),
        changed != index ==> {
            let after = table.remove(changed);
            &&& body.can_finalize(after)
            &&& after.contains_key(index)
            &&& after[index].response is None
        },
{
}

/// A request that just came in has an entry with that request, an empty response with status
/// 200, and nothing else: no body resource, nobody waiting, nobody tracking.
pub proof fn law_new_requests_start_empty(pair: HttpPair, request: Request)
    requires
        fresh_pair(pair, request),
    ensures
        pair.request == request,
        pair.response matches Some(response) && response.status == 200 && headers::header_map(
            response.headers,
        ) == Map::<Seq<u8>, Seq<Seq<u8>>>::empty() && response.body.0
            == ResponseBytesInner::Done,
        pair.body is None,
        pair.promise == PromiseState::Idle,
        pair.tracker is None,
{
}

/// A table without requests has none under any index, and a request has its response exactly
/// while it is in the table and the response was not handed over.
pub proof fn law_responses_are_there_until_handed_over(
    table: Map<usize, HttpPair>,
    index: usize,
)
    ensures
        !no_pairs().contains_key(index),
        bodies_know_their_index(no_pairs()),
        has_response(table, index) <==> table.contains_key(index) && !(table[index].response
            is None),
{
}

/// Where the bodies know their index, no stored body belongs to another request than the one in
/// whose entry it is; and where no stored body does, they know it.
pub proof fn law_stored_bodies_are_in_place(table: Map<usize, HttpPair>, index: usize)
    ensures
        bodies_know_their_index(table) && table.contains_key(index) ==> (
        table[index].response matches Some(response) ==> match response.body.0 {
            ResponseBytesInner::Done => true,
            ResponseBytesInner::Bytes(i, _) => i == index,
            ResponseBytesInner::Resource(i, _, _) => i == index,
            ResponseBytesInner::V8Stream(i, _) => i == index,
        }),
        (forall|k: usize|
            #![trigger table[k]]
            table.contains_key(k) ==> table[k].response is None || table[k].response->0.body.0
                is Done) ==> bodies_know_their_index(table),
{
}

} // verus!
