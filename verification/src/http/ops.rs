//! The operations on a request in flight that its handler can ask for.

use crate::http::body::HttpResponseBody;
use crate::http::callback;
use crate::http::callback::HttpCallbackFuture;
use crate::http::channels;
use crate::http::chunk;
use crate::http::error::HttpError;
use crate::http::headers;
use crate::http::pair;
use crate::http::pair::{HttpPair, PromiseState, ResourceId, Waiter};
use crate::http::response::{ResponseBytes, ResponseBytesInner, SourcePoll, READ_LIMIT};
use crate::poll::Poll;
use crate::raw::NetworkStreamType;
use slab::Slab;
use vstd::prelude::*;
use vstd::string::{StrSliceExecFns, StringSliceAdditionalSpecFns};

verus! {

/// The status of a response that hands the connection over to another protocol.
pub const SWITCHING_PROTOCOLS: u16 = 101;

/// How many buffers the stream of a response can hold before one is sent.
pub const STREAM_CAPACITY: usize = 1;

/// The headers of the response under an index.
pub open spec fn response_headers(table: Map<usize, HttpPair>, index: usize) -> Map<
    Seq<u8>,
    Seq<Seq<u8>>,
> {
    headers::header_map(table[index].response->0.headers)
}

/// The table changed at one index only.
pub open spec fn changed_at(
    before: Map<usize, HttpPair>,
    after: Map<usize, HttpPair>,
    index: usize,
) -> bool {
    after == before.insert(index, after[index])
}

/// Nothing of an entry changed but the headers of its response.
pub open spec fn only_headers_changed(before: HttpPair, after: HttpPair) -> bool {
    &&& before.response is Some
    &&& after.response is Some
    &&& after.response->0.status == before.response->0.status
    &&& after.response->0.body == before.response->0.body
    &&& after == HttpPair { response: after.response, ..before }
}

/// The response under an index can be given a body: it was not handed over, and has none.
pub open spec fn takes_body(table: Map<usize, HttpPair>, index: usize) -> bool {
    pair::has_response(table, index) && table[index].response->0.body.0 is Done
}

/// Nothing of an entry changed but the body of its response.
pub open spec fn only_body_changed(before: HttpPair, after: HttpPair) -> bool {
    &&& before.response is Some
    &&& after.response is Some
    &&& after.response->0.status == before.response->0.status
    &&& after.response->0.headers == before.response->0.headers
    &&& after == HttpPair { response: after.response, ..before }
}

/// What it means for a completed response whether its waiter could be woken.
pub open spec fn wake_result(sent: Result<(), ()>) -> Result<(), HttpError> {
    match sent {
        Ok(()) => Ok(()),
        Err(()) => Err(HttpError::PromiseDropped),
    }
}

/// The waiter was woken, and the result says whether the word reached it.
pub open spec fn was_woken(waiter: Waiter, result: Result<(), HttpError>) -> bool {
    exists|sent: Result<(), ()>| #[trigger]
        channels::waiter_answered(waiter, sent) && result == wake_result(sent)
}

/// What it means for a completed response whether its waiter could be woken.
pub fn woken(sent: Result<(), ()>) -> (r: Result<(), HttpError>)
    ensures
        r == wake_result(sent),
{
    match sent {
        Ok(()) => Ok(()),
        Err(()) => Err(HttpError::PromiseDropped),
    }
}

/// Prepares the response under an index to hand the connection over: the status becomes
/// 101, the headers are appended, and whoever waits for the response is woken. A response
/// that was complete before cannot be used for that.
pub fn op_upgrade(
    slab: &mut Slab<HttpPair>,
    index: usize,
    headers: Vec<(Vec<u8>, Vec<u8>)>,
) -> (r: Result<(), HttpError>)
    requires
        pair::has_response(pair::pairs(*old(slab)), index),
        headers::all_valid(headers::pair_bytes(headers@)),
    ensures
        changed_at(pair::pairs(*old(slab)), pair::pairs(*final(slab)), index),
        upgraded(
            pair::pairs(*old(slab))[index],
            pair::pairs(*final(slab))[index],
            headers::pair_bytes(headers@),
            r,
        ),
        pair::bodies_know_their_index(pair::pairs(*old(slab))) ==> pair::bodies_know_their_index(
            pair::pairs(*final(slab)),
        ),
{
    match pair::slab_get_mut(slab, index) {
        Some(pair) => match &mut pair.response {
            Some(response) => {
                response.status = SWITCHING_PROTOCOLS;
                match headers::append_pairs(&mut response.headers, &headers) {
                    Ok(()) => match pair.promise.resolve() {
                        PromiseState::Idle => Ok(()),
                        PromiseState::Waiting(waiter) => woken(channels::send_to_waiter(waiter)),
                        PromiseState::Resolved => Err(HttpError::ConnectionCompleted),
                    },
                    Err(error) => Err(error),
                }
            },
            None => Err(HttpError::ConnectionCompleted),
        },
        None => Err(HttpError::ConnectionCompleted),
    }
}

/// How the preparation of an upgrade can end. In any case the status is 101 and the body is
/// the same. With the headers appended the response is complete, which is an error if it
/// was before, or if its waiter is gone. Where there is no room for all the
/// headers the promise is not touched.
pub open spec fn upgraded(
    before: HttpPair,
    after: HttpPair,
    pairs: Seq<(Seq<u8>, Seq<u8>)>,
    result: Result<(), HttpError>,
) -> bool {
    &&& after == HttpPair { response: after.response, promise: after.promise, ..before }
    &&& after.response is Some
    &&& after.response->0.status == SWITCHING_PROTOCOLS
    &&& after.response->0.body == before.response->0.body
    &&& if result == Err::<(), HttpError>(HttpError::HeaderMapFull) {
        &&& headers::appended(
            headers::header_map(before.response->0.headers),
            headers::header_map(after.response->0.headers),
            pairs,
            result,
        )
        &&& after.promise == before.promise
    } else {
        &&& headers::appended(
            headers::header_map(before.response->0.headers),
            headers::header_map(after.response->0.headers),
            pairs,
            Ok(()),
        )
        &&& after.promise is Resolved
        &&& match before.promise {
            PromiseState::Idle => result is Ok,
            PromiseState::Waiting(waiter) => was_woken(waiter, result),
            PromiseState::Resolved => result == Err::<(), HttpError>(
                HttpError::ConnectionCompleted,
            ),
        }
    }
}

/// What to do next with a connection that was handed over.
#[derive(Debug, PartialEq, Eq)]
pub enum UpgradeAction {
    /// Find out whether the connection is of this kind.
    Try(NetworkStreamType),
    /// Put the connection into the resource table as a stream of this kind, or fail.
    Finish(Result<NetworkStreamType, HttpError>),
}

/// What to do next with a connection, given the kind tried last and whether it was right.
pub open spec fn next_upgrade(last: Option<(NetworkStreamType, bool)>) -> UpgradeAction {
    match last {
        None => UpgradeAction::Try(NetworkStreamType::Tcp),
        Some((kind, true)) => UpgradeAction::Finish(Ok(kind)),
        Some((NetworkStreamType::Tcp, false)) => UpgradeAction::Try(NetworkStreamType::Unix),
        Some((NetworkStreamType::Unix, false)) => UpgradeAction::Try(NetworkStreamType::Tls),
        Some((NetworkStreamType::Tls, false)) => UpgradeAction::Finish(
            Err(HttpError::CannotUpgrade),
        ),
    }
}

/// Finds out what kind of stream an upgraded connection is, one step at a time. `last` is
/// the kind that was tried last and whether the connection was of it, or nothing at the
/// start.
pub fn upgrade_step(last: Option<(NetworkStreamType, bool)>) -> (action: UpgradeAction)
    ensures
        action == next_upgrade(last),
{
    match last {
        None => UpgradeAction::Try(NetworkStreamType::Tcp),
        Some((kind, true)) => UpgradeAction::Finish(Ok(kind)),
        Some((NetworkStreamType::Tcp, false)) => UpgradeAction::Try(NetworkStreamType::Unix),
        Some((NetworkStreamType::Unix, false)) => UpgradeAction::Try(NetworkStreamType::Tls),
        Some((NetworkStreamType::Tls, false)) => UpgradeAction::Finish(
            Err(HttpError::CannotUpgrade),
        ),
    }
}

/// Marks the response under an index as complete and wakes whoever waits for it. Where the
/// response was complete before, nothing happens.
pub fn op_set_promise_complete(slab: &mut Slab<HttpPair>, index: usize) -> (r: Result<
    (),
    HttpError,
>)
    requires
        pair::pairs(*old(slab)).contains_key(index),
    ensures
        pair::pairs(*final(slab)) == pair::pairs(*old(slab)).insert(
            index,
            (HttpPair {
                promise: PromiseState::Resolved,
                ..pair::pairs(*old(slab))[index]
            }),
        ),
        match pair::pairs(*old(slab))[index].promise {
            PromiseState::Waiting(waiter) => was_woken(waiter, r),
            _ => r is Ok,
        },
        pair::bodies_know_their_index(pair::pairs(*old(slab))) ==> pair::bodies_know_their_index(
            pair::pairs(*final(slab)),
        ),
{
    match pair::slab_get_mut(slab, index) {
        Some(pair) => match pair.promise.resolve() {
            PromiseState::Idle => Ok(()),
            PromiseState::Waiting(waiter) => woken(channels::send_to_waiter(waiter)),
            PromiseState::Resolved => Ok(()),
        },
        None => Ok(()),
    }
}

/// The method and the target of a request. The host is not filled in.
pub fn op_get_request_method_and_url(slab: &Slab<HttpPair>, index: usize) -> (r: (
    String,
    Option<String>,
    String,
))
    requires
        pair::pairs(*slab).contains_key(index),
    ensures
        r.0@ == pair::pairs(*slab)[index].request.method@,
        r.1 is None,
        r.2@ == pair::pairs(*slab)[index].request.uri.text@,
{
    match pair::slab_get(slab, index) {
        Some(pair) => (pair.request.method.clone(), None, pair.request.uri.text.clone()),
        None => (String::new(), None, String::new()),
    }
}

/// The headers of a request.
pub open spec fn request_headers(table: Map<usize, HttpPair>, index: usize) -> Map<
    Seq<u8>,
    Seq<Seq<u8>>,
> {
    headers::header_map(table[index].request.headers)
}

/// The first value of a header of a request, whatever the case of its name.
pub fn op_get_request_header(slab: &Slab<HttpPair>, index: usize, name: String) -> (r: Option<
    Vec<u8>,
>)
    requires
        pair::pairs(*slab).contains_key(index),
    ensures
        ({
            let map = request_headers(pair::pairs(*slab), index);
            let key = headers::lower_bytes(vstd::utf8::encode_utf8(name@));
            match r {
                Some(value) => map.contains_key(key) && map[key].len() > 0 && value@ == map[key][0],
                None => !map.contains_key(key),
            }
        }),
{
    match pair::slab_get(slab, index) {
        Some(pair) => match headers::get_header(&pair.request.headers, name.as_str()) {
            Some(value) => Some(vstd::slice::slice_to_vec(headers::value_bytes(value))),
            None => None,
        },
        None => None,
    }
}

/// All the headers of a request, the values of each name in their order.
pub fn op_get_request_headers(slab: &Slab<HttpPair>, index: usize) -> (r: Vec<(Vec<u8>, Vec<u8>)>)
    requires
        pair::pairs(*slab).contains_key(index),
    ensures
        forall|name: Seq<u8>|
            #[trigger]
            headers::values_named(headers::pair_bytes(r@), name) == headers::values_of(
                request_headers(pair::pairs(*slab), index),
                name,
            ),
{
    match pair::slab_get(slab, index) {
        Some(pair) => headers::all_headers(&pair.request.headers),
        None => Vec::new(),
    }
}

/// Notes the resource through which the body of a request is read.
pub fn op_read_request_body(slab: &mut Slab<HttpPair>, index: usize, resource: ResourceId) -> (r:
    ResourceId)
    requires
        pair::pairs(*old(slab)).contains_key(index),
    ensures
        r == resource,
        pair::pairs(*final(slab)) == pair::pairs(*old(slab)).insert(
            index,
            (HttpPair { body: Some(resource), ..pair::pairs(*old(slab))[index] }),
        ),
        pair::bodies_know_their_index(pair::pairs(*old(slab))) ==> pair::bodies_know_their_index(
            pair::pairs(*final(slab)),
        ),
{
    if let Some(pair) = pair::slab_get_mut(slab, index) {
        pair.body = Some(resource);
    }
    resource
}

/// Appends a header to a response.
pub fn op_set_response_header(
    slab: &mut Slab<HttpPair>,
    index: usize,
    name: String,
    value: String,
) -> (r: Result<(), HttpError>)
    requires
        pair::has_response(pair::pairs(*old(slab)), index),
        headers::valid_header_name(vstd::utf8::encode_utf8(name@)),
        headers::valid_header_value(vstd::utf8::encode_utf8(value@)),
    ensures
        changed_at(pair::pairs(*old(slab)), pair::pairs(*final(slab)), index),
        only_headers_changed(
            pair::pairs(*old(slab))[index],
            pair::pairs(*final(slab))[index],
        ),
        match r {
            Ok(()) => response_headers(pair::pairs(*final(slab)), index) == headers::with_appended(
                response_headers(pair::pairs(*old(slab)), index),
                headers::lower_bytes(vstd::utf8::encode_utf8(name@)),
                vstd::utf8::encode_utf8(value@),
            ),
            Err(error) => {
                &&& error == HttpError::HeaderMapFull
                &&& response_headers(pair::pairs(*final(slab)), index) == response_headers(
                    pair::pairs(*old(slab)),
                    index,
                )
            },
        },
        !headers::may_be_full(response_headers(pair::pairs(*old(slab)), index)) ==> r is Ok,
        pair::bodies_know_their_index(pair::pairs(*old(slab))) ==> pair::bodies_know_their_index(
            pair::pairs(*final(slab)),
        ),
{
    match pair::slab_get_mut(slab, index) {
        Some(pair) => match &mut pair.response {
            Some(response) => headers::append_one(
                &mut response.headers,
                name.as_str().as_bytes(),
                value.as_str().as_bytes(),
            ),
            None => Ok(()),
        },
        None => Ok(()),
    }
}

/// Appends a list of headers to a response, in order. Nothing is appended where there might
/// be more names than a header map can have.
pub fn op_set_response_headers(
    slab: &mut Slab<HttpPair>,
    index: usize,
    headers: Vec<(String, String)>,
) -> (r: Result<(), HttpError>)
    requires
        pair::has_response(pair::pairs(*old(slab)), index),
        headers::all_valid(headers::text_bytes(headers@)),
    ensures
        changed_at(pair::pairs(*old(slab)), pair::pairs(*final(slab)), index),
        only_headers_changed(
            pair::pairs(*old(slab))[index],
            pair::pairs(*final(slab))[index],
        ),
        ({
            let before = response_headers(pair::pairs(*old(slab)), index);
            let after = response_headers(pair::pairs(*final(slab)), index);
            if before.dom().len() + headers@.len() > headers::header_slots() {
                r == Err::<(), HttpError>(HttpError::HeaderMapFull) && after == before
            } else {
                headers::appended(before, after, headers::text_bytes(headers@), r)
            }
        }),
        pair::bodies_know_their_index(pair::pairs(*old(slab))) ==> pair::bodies_know_their_index(
            pair::pairs(*final(slab)),
        ),
{
    match pair::slab_get_mut(slab, index) {
        Some(pair) => match &mut pair.response {
            Some(response) => match headers::reserve_headers(&mut response.headers, headers.len()) {
                Ok(()) => headers::append_texts(&mut response.headers, &headers),
                Err(_) => Err(HttpError::HeaderMapFull),
            },
            None => Ok(()),
        },
        None => Ok(()),
    }
}

/// Gives a response its body.
fn set_body(slab: &mut Slab<HttpPair>, index: usize, body: ResponseBytesInner)
    requires
        takes_body(pair::pairs(*old(slab)), index),
        body.index() == Some(index),
    ensures
        changed_at(pair::pairs(*old(slab)), pair::pairs(*final(slab)), index),
        only_body_changed(pair::pairs(*old(slab))[index], pair::pairs(*final(slab))[index]),
        pair::pairs(*final(slab))[index].response->0.body.0 == body,
        pair::bodies_know_their_index(pair::pairs(*old(slab))) ==> pair::bodies_know_their_index(
            pair::pairs(*final(slab)),
        ),
{
    if let Some(pair) = pair::slab_get_mut(slab, index) {
        if let Some(response) = &mut pair.response {
            response.body = ResponseBytes(body);
        }
    }
}

/// Pipes a resource into a response. `resource` is what the resource table answered; if the
/// resource is not there, nothing changes. Otherwise the answer is how much to read from
/// the resource first.
pub fn op_set_response_body_resource(
    slab: &mut Slab<HttpPair>,
    index: usize,
    resource: Result<ResourceId, HttpError>,
    auto_close: bool,
) -> (r: Result<usize, HttpError>)
    requires
        resource is Ok ==> takes_body(pair::pairs(*old(slab)), index),
    ensures
        match resource {
            Ok(rid) => {
                &&& r == Ok::<usize, HttpError>(READ_LIMIT)
                &&& changed_at(pair::pairs(*old(slab)), pair::pairs(*final(slab)), index)
                &&& only_body_changed(
                    pair::pairs(*old(slab))[index],
                    pair::pairs(*final(slab))[index],
                )
                &&& pair::pairs(*final(slab))[index].response->0.body.0
                    == ResponseBytesInner::Resource(index, auto_close, rid)
            },
            Err(error) => {
                &&& r == Err::<usize, HttpError>(error)
                &&& pair::pairs(*final(slab)) == pair::pairs(*old(slab))
            },
        },
        pair::bodies_know_their_index(pair::pairs(*old(slab))) ==> pair::bodies_know_their_index(
            pair::pairs(*final(slab)),
        ),
{
    match resource {
        Ok(rid) => {
            set_body(slab, index, ResponseBytesInner::Resource(index, auto_close, rid));
            Ok(READ_LIMIT)
        },
        Err(error) => Err(error),
    }
}

/// Makes the body of a response a stream, and gives out the end to write it through.
pub fn op_set_response_body_stream(slab: &mut Slab<HttpPair>, index: usize) -> (writer:
    HttpResponseBody)
    requires
        takes_body(pair::pairs(*old(slab)), index),
    ensures
        writer.is_open(),
        changed_at(pair::pairs(*old(slab)), pair::pairs(*final(slab)), index),
        only_body_changed(pair::pairs(*old(slab))[index], pair::pairs(*final(slab))[index]),
        pair::pairs(*final(slab))[index].response->0.body.0 matches ResponseBytesInner::V8Stream(
            i,
            receiver,
        ) && i == index && channels::queue_joined(writer.queue()->0, receiver, STREAM_CAPACITY),
        pair::bodies_know_their_index(pair::pairs(*old(slab))) ==> pair::bodies_know_their_index(
            pair::pairs(*final(slab)),
        ),
{
    let (tx, rx) = channels::queue_channel(STREAM_CAPACITY);
    set_body(slab, index, ResponseBytesInner::V8Stream(index, rx));
    HttpResponseBody::new(tx)
}

/// Makes a text the body of a response.
pub fn op_set_response_body_text(slab: &mut Slab<HttpPair>, index: usize, text: String)
    requires
        takes_body(pair::pairs(*old(slab)), index),
    ensures
        changed_at(pair::pairs(*old(slab)), pair::pairs(*final(slab)), index),
        only_body_changed(pair::pairs(*old(slab))[index], pair::pairs(*final(slab))[index]),
        has_bytes(
            pair::pairs(*final(slab))[index],
            index,
            vstd::utf8::encode_utf8(text@),
        ),
        pair::bodies_know_their_index(pair::pairs(*old(slab))) ==> pair::bodies_know_their_index(
            pair::pairs(*final(slab)),
        ),
{
    let bytes = text.as_str().as_bytes_vec();
    set_body(slab, index, ResponseBytesInner::Bytes(index, chunk::chunk_from_vec(bytes)));
}

/// Makes bytes the body of a response.
pub fn op_set_response_body_bytes(slab: &mut Slab<HttpPair>, index: usize, buffer: Vec<u8>)
    requires
        takes_body(pair::pairs(*old(slab)), index),
    ensures
        changed_at(pair::pairs(*old(slab)), pair::pairs(*final(slab)), index),
        only_body_changed(pair::pairs(*old(slab))[index], pair::pairs(*final(slab))[index]),
        has_bytes(pair::pairs(*final(slab))[index], index, buffer@),
        pair::bodies_know_their_index(pair::pairs(*old(slab))) ==> pair::bodies_know_their_index(
            pair::pairs(*final(slab)),
        ),
{
    set_body(slab, index, ResponseBytesInner::Bytes(index, chunk::chunk_from_vec(buffer)));
}

/// The body of an entry's response is a buffer of these bytes.
pub open spec fn has_bytes(pair: HttpPair, index: usize, bytes: Seq<u8>) -> bool {
    pair.response->0.body.0 matches ResponseBytesInner::Bytes(i, buffer) && i == index
        && chunk::chunk_bytes(buffer) == bytes
}

/// The bytes that a response was given as its body are the bytes that its only frame holds,
/// once the response was handed over. With that frame the request leaves the table, and
/// whoever tracked it is told.
pub proof fn law_bytes_set_are_bytes_sent(
    before: Map<usize, HttpPair>,
    after: Map<usize, HttpPair>,
    index: usize,
    bytes: Seq<u8>,
    source: SourcePoll,
)
    requires
        takes_body(before, index),
        changed_at(before, after, index),
        only_body_changed(before[index], after[index]),
        has_bytes(after[index], index, bytes),
    ensures
        pair::has_response(after, index),
        ({
            let body = after[index].response->0.body;
            let handed_over = after.insert(index, (HttpPair { response: None, ..after[index] }));
            &&& body.frame(source) matches Poll::Ready(Some(Ok(buffer))) && chunk::chunk_bytes(
                buffer,
            ) == bytes
            &&& body.0.size() == Some(bytes.len())
            &&& body.ends(source)
            &&& body.0.can_finalize(handed_over)
            &&& body.0.tracker(handed_over) == before[index].tracker
            &&& body.0.table_after(handed_over) == before.remove(index)
        }),
{
    let body = after[index].response->0.body;
    let handed_over = after.insert(index, (HttpPair { response: None, ..after[index] }));
    assert(body.0.table_after(handed_over) =~= before.remove(index));
}

/// A response that is complete cannot be used to hand the connection over.
pub proof fn law_complete_response_cannot_upgrade(
    before: HttpPair,
    after: HttpPair,
    pairs: Seq<(Seq<u8>, Seq<u8>)>,
    result: Result<(), HttpError>,
)
    requires
        before.promise is Resolved,
        upgraded(before, after, pairs, result),
    ensures
        result is Err,
        after.promise is Resolved,
        headers::has_room(headers::header_map(before.response->0.headers), pairs.len())
            ==> result == Err::<(), HttpError>(HttpError::ConnectionCompleted),
{
}

/// To hand the connection over completes the response: a second attempt is refused.
pub proof fn law_upgrade_happens_once(
    first: HttpPair,
    second: HttpPair,
    third: HttpPair,
    pairs: Seq<(Seq<u8>, Seq<u8>)>,
    again: Seq<(Seq<u8>, Seq<u8>)>,
    result: Result<(), HttpError>,
)
    requires
        upgraded(first, second, pairs, Ok(())),
        upgraded(second, third, again, result),
    ensures
        result is Err,
{
    law_complete_response_cannot_upgrade(second, third, again, result);
}

/// How many kinds of connection remain to be tried.
pub open spec fn upgrade_kinds_left(last: Option<(NetworkStreamType, bool)>) -> nat {
    match last {
        None => 3,
        Some((NetworkStreamType::Tcp, _)) => 2,
        Some((NetworkStreamType::Unix, _)) => 1,
        Some((NetworkStreamType::Tls, _)) => 0,
    }
}

/// The result of trying one kind after another on a connection until the end. A connection
/// of no known kind has none.
pub open spec fn run_upgrade(
    connection: Option<NetworkStreamType>,
    last: Option<(NetworkStreamType, bool)>,
) -> Result<NetworkStreamType, HttpError>
    decreases upgrade_kinds_left(last),
{
    match next_upgrade(last) {
        UpgradeAction::Try(kind) => run_upgrade(
            connection,
            Some((kind, connection == Some(kind))),
        ),
        UpgradeAction::Finish(result) => result,
    }
}

/// An upgraded connection is found to be of the kind it is, after at most three tries; one
/// of no known kind cannot be upgraded.
pub proof fn law_upgrade_finds_kind(connection: Option<NetworkStreamType>)
    ensures
        run_upgrade(connection, None) == match connection {
            Some(kind) => Ok::<NetworkStreamType, HttpError>(kind),
            None => Err(HttpError::CannotUpgrade),
        },
{
    reveal_with_fuel(run_upgrade, 5);
}

/// Whoever started to wait for a response is the one that its completion reaches: the word is
/// sent into the channel whose other end the waiting future holds.
pub proof fn law_completion_reaches_who_awaits(
    future: HttpCallbackFuture,
    index: usize,
    promise: PromiseState,
    result: Result<(), HttpError>,
)
    requires
        callback::awaits(future, index, promise),
        promise matches PromiseState::Waiting(waiter) ==> was_woken(waiter, result),
    ensures
        future matches HttpCallbackFuture::PromisePending(i, receiver) && i == index && exists|
            sender: Waiter,
            sent: Result<(), ()>,
        |
            {
                &&& channels::waiter_joined(sender, receiver)
                &&& #[trigger] channels::waiter_answered(sender, sent)
                &&& result == wake_result(sent)
            },
{
}

/// To complete a response again changes nothing.
pub proof fn law_completing_twice_changes_nothing(table: Map<usize, HttpPair>, index: usize)
    requires
        table.contains_key(index),
    ensures
        ({
            let once = table.insert(
                index,
                (HttpPair { promise: PromiseState::Resolved, ..table[index] }),
            );
            let twice = once.insert(
                index,
                (HttpPair { promise: PromiseState::Resolved, ..once[index] }),
            );
            &&& !(once[index].promise is Waiting)
            &&& twice == once
        }),
{
    let once = table.insert(index, (HttpPair { promise: PromiseState::Resolved, ..table[index] }));
    assert(once.insert(index, (HttpPair { promise: PromiseState::Resolved, ..once[index] }))
        =~= once);
}

/// A change at one index leaves that index in the table and every other entry as it was.
pub proof fn law_change_stays_in_its_place(
    before: Map<usize, HttpPair>,
    after: Map<usize, HttpPair>,
    index: usize,
    other: usize,
)
    requires
        changed_at(before, after, index),
    ensures
        after.contains_key(index),
        other != index ==> after.contains_key(other) == before.contains_key(other),
        other != index && before.contains_key(other) ==> after[other] == before[other],
{
    assert(before.insert(index, after[index]).contains_key(index));
}

/// Setting headers leaves the response where it is, with its status and its body, and nothing of
/// the request, its promise and its tracker changes.
pub proof fn law_headers_alone_change(before: HttpPair, after: HttpPair)
    requires
        only_headers_changed(before, after),
    ensures
        before.response matches Some(old_response) && (after.response matches Some(new_response)
            && new_response.status == old_response.status && new_response.body
            == old_response.body),
        after.request == before.request,
        after.body == before.body,
        after.promise == before.promise,
        after.tracker == before.tracker,
{
}

/// Setting a body leaves the response where it is, with its status and its headers, and nothing
/// of the request, its promise and its tracker changes.
pub proof fn law_body_alone_changes(before: HttpPair, after: HttpPair)
    requires
        only_body_changed(before, after),
    ensures
        before.response matches Some(old_response) && (after.response matches Some(new_response)
            && new_response.status == old_response.status && new_response.headers
            == old_response.headers),
        after.request == before.request,
        after.body == before.body,
        after.promise == before.promise,
        after.tracker == before.tracker,
{
}

/// A response can be given a body exactly where it is there and has none; a response has given
/// bytes as its body exactly where its body is a buffer of them for its own request.
pub proof fn law_bodies_are_given_once(
    table: Map<usize, HttpPair>,
    index: usize,
    pair: HttpPair,
    bytes: Seq<u8>,
)
    ensures
        takes_body(table, index) <==> table.contains_key(index) && table[index].response is Some
            && table[index].response->0.body.0 == ResponseBytesInner::Done,
        has_bytes(pair, index, bytes) <==> (
        pair.response->0.body.0 matches ResponseBytesInner::Bytes(i, buffer) && i == index
            && chunk::chunk_bytes(buffer) == bytes),
        response_headers(table, index) == headers::header_map(table[index].response->0.headers),
        request_headers(table, index) == headers::header_map(table[index].request.headers),
{
}

/// Waking a waiter succeeds exactly where the word reached it, and fails with one error.
pub proof fn law_waking_is_faithful(waiter: Waiter, result: Result<(), HttpError>)
    ensures
        wake_result(Ok(())) is Ok,
        wake_result(Err(())) == Err::<(), HttpError>(HttpError::PromiseDropped),
        was_woken(waiter, result) ==> {
            &&& exists|sent: Result<(), ()>| #[trigger]
                channels::waiter_answered(waiter, sent) && (sent is Ok <==> result is Ok)
            &&& result matches Err(error) ==> error == HttpError::PromiseDropped
        },
{
}

/// What preparing an upgrade does. The status becomes 101, and the request, the body of the
/// response and the tracker stay. As long as the map has few enough names, all the headers are
/// appended and the response is complete: with success where nobody waited, with the word sent
/// where somebody did, and with an error where it was complete before.
pub proof fn law_upgrade_effect(
    before: HttpPair,
    after: HttpPair,
    pairs: Seq<(Seq<u8>, Seq<u8>)>,
    result: Result<(), HttpError>,
    name: Seq<u8>,
)
    requires
        before.response is Some,
        upgraded(before, after, pairs, result),
    ensures
        after.response is Some,
        after.response->0.status == 101,
        after.response->0.body == before.response->0.body,
        after.request == before.request,
        after.body == before.body,
        after.tracker == before.tracker,
        result == Err::<(), HttpError>(HttpError::HeaderMapFull) ==> after.promise
            == before.promise,
        ({
            let old_headers = headers::header_map(before.response->0.headers);
            let new_headers = headers::header_map(after.response->0.headers);
            !headers::may_be_full(headers::with_all_appended(old_headers, pairs)) ==> {
                &&& headers::values_of(new_headers, name) == headers::values_of(old_headers, name)
                    + headers::values_named(headers::lower_names(pairs), name)
                &&& after.promise == PromiseState::Resolved
                &&& match before.promise {
                    PromiseState::Idle => result is Ok,
                    PromiseState::Waiting(waiter) => exists|sent: Result<(), ()>| #[trigger]
                        channels::waiter_answered(waiter, sent) && (sent is Ok <==> result is Ok),
                    PromiseState::Resolved => result == Err::<(), HttpError>(
                        HttpError::ConnectionCompleted,
                    ),
                }
            }
        }),
{
    let old_headers = headers::header_map(before.response->0.headers);
    let new_headers = headers::header_map(after.response->0.headers);
    if result == Err::<(), HttpError>(HttpError::HeaderMapFull) {
        if !headers::may_be_full(headers::with_all_appended(old_headers, pairs)) {
            headers::law_few_names_always_fit(old_headers, new_headers, pairs, result);
        }
    } else {
        headers::law_appending_a_list(old_headers, new_headers, pairs, Ok(()), name);
    }
}

/// The steps by which the kind of an upgraded connection is found: a kind that was right is the
/// result, whichever it is; a kind that was wrong is never the result, nor tried again.
pub proof fn law_upgrade_steps(kind: NetworkStreamType)
    ensures
        next_upgrade(Some((kind, true))) == UpgradeAction::Finish(Ok(kind)),
        next_upgrade(Some((kind, false))) != UpgradeAction::Finish(Ok(kind)),
        next_upgrade(Some((kind, false))) != UpgradeAction::Try(kind),
        next_upgrade(None) is Try,
{
}

} // verus!
