use bytes::Bytes;
use deno_raw_http::http::body::{
    FramePoll, HttpRequestBody, HttpResponseBody, ReadFuture, WriteOutcome,
};
use deno_raw_http::http::callback::{serve_http, HttpCallback, HttpCallbackFuture};
use deno_raw_http::http::error::HttpError;
use deno_raw_http::http::ops::{
    op_set_promise_complete, op_set_response_body_bytes, op_set_response_body_resource,
    op_set_response_body_stream, op_set_response_body_text, op_set_response_header,
    op_set_response_headers, op_upgrade, upgrade_step, woken, UpgradeAction,
};
use deno_raw_http::http::pair::{new_slab, slab_insert, HttpPair, PromiseState};
use deno_raw_http::http::request::{Request, Uri};
use deno_raw_http::http::response::{
    report, reported, Response, ResponseBytes, ResponseBytesInner, SourcePoll, READ_LIMIT,
};
use deno_raw_http::http::serve::{
    op_http_track, op_http_wait, track_result, ErrorSource, IoErrorKind, ServeError, WaitAction,
    WaitEvent, SHUTDOWN,
};
use deno_raw_http::poll::Poll;
use deno_raw_http::raw::NetworkStreamType;
use hyper::HeaderMap;
use slab::Slab;

fn request() -> Request {
    Request {
        method: "GET".to_string(),
        uri: Uri { text: "/".to_string(), authority: None },
        headers: HeaderMap::new(),
    }
}

fn begin() -> (Slab<HttpPair>, usize, HttpCallbackFuture) {
    let mut slab = new_slab();
    let (index, future) = serve_http(&mut slab, &HttpCallback {}, request());
    (slab, index, future)
}

fn heard(future: &mut HttpCallbackFuture) -> bool {
    match future {
        HttpCallbackFuture::PromisePending(_, rx) => rx.try_recv().is_ok(),
        _ => false,
    }
}

fn hand_over(slab: &mut Slab<HttpPair>, future: &mut HttpCallbackFuture) -> Response {
    match future.poll(slab, true) {
        Poll::Ready(Ok(response)) => response,
        _ => panic!("the response is due"),
    }
}

fn frame(frame: Poll<Option<Result<Bytes, HttpError>>>) -> Option<Vec<u8>> {
    match frame {
        Poll::Ready(Some(Ok(bytes))) => Some(bytes.to_vec()),
        Poll::Ready(None) => None,
        _ => panic!("neither a frame nor the end"),
    }
}

#[test]
fn text_goes_out_in_one_frame() {
    let (mut slab, index, mut future) = begin();
    let mut outcome = op_http_track(&mut slab, index, Ok(())).unwrap();
    op_set_response_body_text(&mut slab, index, "h\u{e9}".to_string());
    assert!(matches!(future.poll(&mut slab, false), Poll::Pending));
    assert_eq!(op_set_promise_complete(&mut slab, index), Ok(()));
    assert!(heard(&mut future));
    let mut body = hand_over(&mut slab, &mut future).body;
    assert_eq!(body.size_hint(), Some(3));
    assert!(!body.is_end_stream());
    let step = body.poll_frame(&mut slab, SourcePoll::Pending);
    assert_eq!(frame(step.frame), Some(b"h\xc3\xa9".to_vec()));
    assert_eq!(step.reported, Ok(()));
    assert!(!step.close);
    assert_eq!(step.read, None);
    assert!(!slab.contains(index));
    assert_eq!(outcome.try_recv().unwrap(), Ok(true));
    assert!(body.is_end_stream());
    assert_eq!(body.size_hint(), Some(0));
    assert_eq!(frame(body.poll_frame(&mut slab, SourcePoll::Pending).frame), None);
    assert_eq!(body.drop(&mut slab), Ok(()));
}

#[test]
fn bytes_that_are_given_up_are_reported() {
    let (mut slab, index, mut future) = begin();
    let mut outcome = op_http_track(&mut slab, index, Ok(())).unwrap();
    op_set_response_body_bytes(&mut slab, index, vec![1, 2, 3]);
    let body = hand_over(&mut slab, &mut future).body;
    assert_eq!(body.0.len(), Some(3));
    assert_eq!(body.drop(&mut slab), Ok(()));
    assert!(slab.is_empty());
    assert_eq!(outcome.try_recv().unwrap(), Ok(false));
}

#[test]
fn lost_trackers_are_noticed() {
    let (mut slab, index, mut future) = begin();
    drop(op_http_track(&mut slab, index, Ok(())).unwrap());
    op_set_response_body_bytes(&mut slab, index, vec![1]);
    let mut body = hand_over(&mut slab, &mut future).body;
    let step = body.poll_frame(&mut slab, SourcePoll::Pending);
    assert_eq!(frame(step.frame), Some(vec![1]));
    assert_eq!(step.reported, Err(HttpError::TrackerDropped(true)));
    assert_eq!(report(None, false), Ok(()));
    assert_eq!(reported(Err(Ok(false))), Err(HttpError::TrackerDropped(false)));
    assert_eq!(
        reported(Err(Err(HttpError::WriteFailed))),
        Err(HttpError::WriteFailed)
    );
}

#[test]
fn finishing_twice_does_nothing() {
    let (mut slab, index, mut future) = begin();
    op_set_response_body_bytes(&mut slab, index, vec![5]);
    let mut body = hand_over(&mut slab, &mut future).body;
    let (before, told) = body.0.finalize(&mut slab, true);
    assert!(matches!(before, ResponseBytesInner::Bytes(i, _) if i == index));
    assert_eq!(told, Ok(()));
    let other = slab_insert(&mut slab, request());
    let (before, told) = body.0.finalize(&mut slab, true);
    assert!(matches!(before, ResponseBytesInner::Done));
    assert_eq!(told, Ok(()));
    assert!(slab.contains(other));
}

#[test]
fn resources_are_piped_until_they_are_empty() {
    let (mut slab, index, mut future) = begin();
    assert_eq!(
        op_set_response_body_resource(&mut slab, index, Err(HttpError::BadResourceId), true),
        Err(HttpError::BadResourceId)
    );
    assert_eq!(
        op_set_response_body_resource(&mut slab, index, Ok(7), true),
        Ok(READ_LIMIT)
    );
    assert_eq!(READ_LIMIT, 64 * 1024);
    let mut body = hand_over(&mut slab, &mut future).body;
    assert!(matches!(body.0, ResponseBytesInner::Resource(i, true, 7) if i == index));
    assert_eq!(body.size_hint(), None);
    let step = body.poll_frame(&mut slab, SourcePoll::Pending);
    assert!(matches!(step.frame, Poll::Pending));
    let step = body.poll_frame(&mut slab, SourcePoll::Chunk(Bytes::from(vec![1, 2])));
    assert_eq!(frame(step.frame), Some(vec![1, 2]));
    assert_eq!(step.read, Some(READ_LIMIT));
    assert!(!step.close);
    let step = body.poll_frame(&mut slab, SourcePoll::Failed(HttpError::WriteFailed));
    assert!(matches!(step.frame, Poll::Ready(Some(Err(HttpError::WriteFailed)))));
    let step = body.poll_frame(&mut slab, SourcePoll::Chunk(Bytes::new()));
    assert_eq!(frame(step.frame), None);
    assert!(step.close);
    assert_eq!(step.read, None);
    assert!(slab.contains(index));
    assert_eq!(body.drop(&mut slab), Ok(()));
    assert!(!slab.contains(index));
}

#[test]
fn resources_stay_open_unless_told_otherwise() {
    let mut slab = new_slab();
    let index = slab_insert(&mut slab, request());
    let mut body = ResponseBytes(ResponseBytesInner::Resource(index, false, 3));
    let step = body.poll_frame(&mut slab, SourcePoll::Chunk(Bytes::new()));
    assert_eq!(frame(step.frame), None);
    assert!(!step.close);
}

#[test]
fn streams_end_with_their_writer() {
    let (mut slab, index, mut future) = begin();
    let mut outcome = op_http_track(&mut slab, index, Ok(())).unwrap();
    let mut writer = op_set_response_body_stream(&mut slab, index);
    assert_eq!(writer.name(), "responseBody");
    assert_eq!(writer.sender().max_capacity(), 1);
    let buf = Bytes::from(vec![4, 5]);
    writer.sender().try_send(buf.clone()).unwrap();
    assert_eq!(writer.write(&buf, true), Ok(WriteOutcome::Full { nwritten: 2 }));
    assert_eq!(writer.write(&buf, false), Err(HttpError::WriteFailed));
    let mut body = hand_over(&mut slab, &mut future).body;
    let next = match &mut body.0 {
        ResponseBytesInner::V8Stream(i, queue) => {
            assert_eq!(*i, index);
            queue.try_recv().unwrap()
        }
        _ => panic!("the body is a stream"),
    };
    let step = body.poll_frame(&mut slab, SourcePoll::Chunk(next));
    assert_eq!(frame(step.frame), Some(vec![4, 5]));
    assert_eq!(step.read, None);
    let step = body.poll_frame(&mut slab, SourcePoll::Pending);
    assert!(matches!(step.frame, Poll::Pending));
    assert!(writer.can_write());
    writer.close();
    assert!(!writer.can_write());
    let step = body.poll_frame(&mut slab, SourcePoll::End);
    assert_eq!(frame(step.frame), None);
    assert_eq!(outcome.try_recv().unwrap(), Ok(true));
    assert!(slab.is_empty());
}

#[test]
fn finished_handlers_are_handed_over_once() {
    let (mut slab, index, _) = begin();
    let mut future = HttpCallbackFuture::Ready(index);
    assert_eq!(hand_over(&mut slab, &mut future).status, 200);
    assert!(matches!(future, HttpCallbackFuture::Completed));
    assert!(matches!(future.poll(&mut slab, true), Poll::Pending));
    assert!(slab.get(index).unwrap().response.is_none());
}

#[test]
fn completing_twice_is_harmless() {
    let (mut slab, index, mut future) = begin();
    assert_eq!(op_set_promise_complete(&mut slab, index), Ok(()));
    assert!(heard(&mut future));
    assert_eq!(op_set_promise_complete(&mut slab, index), Ok(()));
    assert!(matches!(slab.get(index).unwrap().promise, PromiseState::Resolved));
    let idle = slab_insert(&mut slab, request());
    assert_eq!(op_set_promise_complete(&mut slab, idle), Ok(()));
}

#[test]
fn lost_waiters_are_noticed() {
    let (mut slab, index, future) = begin();
    drop(future);
    assert_eq!(op_set_promise_complete(&mut slab, index), Err(HttpError::PromiseDropped));
    assert_eq!(woken(Ok(())), Ok(()));
    assert_eq!(woken(Err(())), Err(HttpError::PromiseDropped));
}

#[test]
fn a_new_wait_replaces_the_old_one() {
    let (mut slab, index, mut first) = begin();
    let mut second = HttpCallback {}.process_request(&mut slab, index);
    assert_eq!(op_set_promise_complete(&mut slab, index), Ok(()));
    assert!(!heard(&mut first));
    assert!(heard(&mut second));
}

#[test]
fn upgrades_switch_protocols() {
    let (mut slab, index, mut future) = begin();
    let headers = vec![
        (b"Upgrade".to_vec(), b"websocket".to_vec()),
        (b"x".to_vec(), b"1".to_vec()),
        (b"X".to_vec(), b"2".to_vec()),
    ];
    assert_eq!(op_upgrade(&mut slab, index, headers), Ok(()));
    assert!(heard(&mut future));
    let response = slab.get(index).unwrap().response.as_ref().unwrap();
    assert_eq!(response.status, 101);
    assert_eq!(response.headers.get("upgrade").unwrap(), "websocket");
    let both: Vec<&[u8]> = response.headers.get_all("x").iter().map(|v| v.as_bytes()).collect();
    assert_eq!(both, vec![b"1", b"2"]);
    assert_eq!(op_upgrade(&mut slab, index, vec![]), Err(HttpError::ConnectionCompleted));
}

#[test]
fn upgrades_notice_a_lost_waiter() {
    let (mut slab, index, future) = begin();
    drop(future);
    assert_eq!(op_upgrade(&mut slab, index, vec![]), Err(HttpError::PromiseDropped));
    let idle = slab_insert(&mut slab, request());
    assert_eq!(op_upgrade(&mut slab, idle, vec![]), Ok(()));
}

#[test]
fn upgraded_connections_are_told_apart() {
    let tcp = NetworkStreamType::Tcp;
    let unix = NetworkStreamType::Unix;
    let tls = NetworkStreamType::Tls;
    assert_eq!(upgrade_step(None), UpgradeAction::Try(tcp));
    assert_eq!(upgrade_step(Some((tcp, true))), UpgradeAction::Finish(Ok(tcp)));
    assert_eq!(upgrade_step(Some((tcp, false))), UpgradeAction::Try(unix));
    assert_eq!(upgrade_step(Some((unix, true))), UpgradeAction::Finish(Ok(unix)));
    assert_eq!(upgrade_step(Some((unix, false))), UpgradeAction::Try(tls));
    assert_eq!(upgrade_step(Some((tls, true))), UpgradeAction::Finish(Ok(tls)));
    assert_eq!(
        upgrade_step(Some((tls, false))),
        UpgradeAction::Finish(Err(HttpError::CannotUpgrade))
    );
}

#[test]
fn response_headers_are_appended() {
    let (mut slab, index, _) = begin();
    let set = |slab: &mut Slab<HttpPair>, name: &str, value: &str| {
        op_set_response_header(slab, index, name.to_string(), value.to_string())
    };
    assert_eq!(set(&mut slab, "X-A", "1"), Ok(()));
    assert_eq!(set(&mut slab, "x-a", "2"), Ok(()));
    let more = vec![("x-b".to_string(), "3".to_string()), ("X-a".to_string(), "4".to_string())];
    assert_eq!(op_set_response_headers(&mut slab, index, more), Ok(()));
    let headers = &slab.get(index).unwrap().response.as_ref().unwrap().headers;
    let of_a: Vec<&[u8]> = headers.get_all("x-a").iter().map(|v| v.as_bytes()).collect();
    assert_eq!(of_a, vec![b"1", b"2", b"4"]);
    assert_eq!(headers.get("X-B").unwrap(), "3");
    assert_eq!(headers.len(), 4);
}

fn many(n: usize) -> Vec<(String, String)> {
    (0..n).map(|i| (format!("n{}", i), "v".to_string())).collect()
}

#[test]
fn too_many_headers_are_refused() {
    let (mut slab, index, _) = begin();
    assert_eq!(
        op_set_response_headers(&mut slab, index, many(32769)),
        Err(HttpError::HeaderMapFull)
    );
    assert!(slab.get(index).unwrap().response.as_ref().unwrap().headers.is_empty());
    assert_eq!(
        op_set_response_headers(&mut slab, index, many(24577)),
        Err(HttpError::HeaderMapFull)
    );
    let headers = &slab.get(index).unwrap().response.as_ref().unwrap().headers;
    assert_eq!(headers.len(), 24576);
    assert_eq!(
        op_set_response_header(&mut slab, index, "one-more".to_string(), "v".to_string()),
        Err(HttpError::HeaderMapFull)
    );
    let one_more = vec![(b"one-more".to_vec(), b"v".to_vec())];
    assert_eq!(op_upgrade(&mut slab, index, one_more), Err(HttpError::HeaderMapFull));
    let pair = slab.get(index).unwrap();
    assert!(matches!(pair.promise, PromiseState::Waiting(_)));
    assert_eq!(pair.response.as_ref().unwrap().status, 101);
}

#[test]
fn six_thousand_headers_always_fit() {
    let (mut slab, index, _) = begin();
    assert_eq!(op_set_response_headers(&mut slab, index, many(6554)), Ok(()));
    let headers = &slab.get(index).unwrap().response.as_ref().unwrap().headers;
    assert_eq!(headers.len(), 6554);
}

#[test]
fn many_values_of_one_name_always_fit() {
    let (mut slab, index, mut future) = begin();
    let texts = (0..7000).map(|i| ("One".to_string(), i.to_string())).collect();
    assert_eq!(op_set_response_headers(&mut slab, index, texts), Ok(()));
    let bytes = (0..7000).map(|i: u32| (b"one".to_vec(), i.to_string().into_bytes())).collect();
    assert_eq!(op_upgrade(&mut slab, index, bytes), Ok(()));
    assert!(heard(&mut future));
    let headers = &slab.get(index).unwrap().response.as_ref().unwrap().headers;
    assert_eq!(headers.keys_len(), 1);
    assert_eq!(headers.len(), 14000);
    assert_eq!(headers.get_all("one").iter().nth(7001).unwrap(), "1");
}

#[test]
fn lists_of_headers_are_set_one_by_one() {
    let (mut slab, list, _) = begin();
    let (single, _) = serve_http(&mut slab, &HttpCallback {}, request());
    let headers =
        || [("A", "1"), ("b", "2"), ("a", "3")].map(|(n, v)| (n.to_string(), v.to_string())).to_vec();
    assert_eq!(op_set_response_headers(&mut slab, list, headers()), Ok(()));
    for (name, value) in headers() {
        assert_eq!(op_set_response_header(&mut slab, single, name, value), Ok(()));
    }
    assert_eq!(op_set_response_headers(&mut slab, single, vec![]), Ok(()));
    let of = |index: usize| &slab.get(index).unwrap().response.as_ref().unwrap().headers;
    assert_eq!(of(list), of(single));
}

#[test]
fn tracking_again_replaces_the_tracker() {
    let (mut slab, index, _) = begin();
    let mut first = op_http_track(&mut slab, index, Ok(())).unwrap();
    let again = op_http_track(&mut slab, index, Err(HttpError::BadResourceId));
    assert!(again.is_err());
    assert!(first.try_recv().is_err());
    assert!(slab.get(index).unwrap().tracker.as_ref().unwrap().is_closed());
}

#[test]
fn tracking_without_a_server_fails() {
    let (mut slab, index, _) = begin();
    assert!(matches!(
        op_http_track(&mut slab, index, Err(HttpError::BadResourceId)),
        Err(HttpError::BadResourceId)
    ));
    assert!(slab.get(index).unwrap().tracker.is_some());
    assert_eq!(track_result(Ok(Ok(true))), Ok(()));
    assert_eq!(track_result(Ok(Ok(false))), Err(HttpError::IncompleteStream));
    assert_eq!(
        track_result(Ok(Err(HttpError::WriteFailed))),
        Err(HttpError::WriteFailed)
    );
    let lost = || HttpError::Runtime("channel closed".to_string());
    assert_eq!(track_result(Err(lost())), Err(lost()));
}

fn stopped_by(source: ErrorSource) -> ServeError {
    ServeError { message: "stopped".to_string(), source }
}

fn stopped(not_connected: bool) -> ServeError {
    let kind = if not_connected { IoErrorKind::NotConnected } else { IoErrorKind::Other };
    stopped_by(ErrorSource::Io(kind))
}

#[test]
fn waiting_announces_requests_and_the_end() {
    let finish = |event| match op_http_wait(event) {
        WaitAction::Finish(r) => r,
        _ => panic!("the wait is over"),
    };
    let forget = |event| match op_http_wait(event) {
        WaitAction::Forget(r) => r,
        _ => panic!("the server is to be forgotten"),
    };
    assert_eq!(finish(WaitEvent::Request(12)), Ok(12));
    assert_eq!(finish(WaitEvent::Request(0x1_0000_0005)), Ok(5));
    assert!(matches!(op_http_wait(WaitEvent::Closed), WaitAction::Join));
    assert_eq!(finish(WaitEvent::JoinFailed(stopped(true))), Err(stopped(true)));
    assert_eq!(forget(WaitEvent::Joined(Ok(()))), Ok(SHUTDOWN));
    assert_eq!(forget(WaitEvent::Joined(Err(stopped(true)))), Ok(u32::MAX));
    assert_eq!(forget(WaitEvent::Joined(Err(stopped(false)))), Err(stopped(false)));
    let alone = || stopped_by(ErrorSource::Nothing);
    assert_eq!(forget(WaitEvent::Joined(Err(alone()))), Err(alone()));
    let foreign = || stopped_by(ErrorSource::Foreign);
    assert_eq!(forget(WaitEvent::Joined(Err(foreign()))), Err(foreign()));
}

fn data(bytes: &[u8]) -> Poll<Option<Result<Bytes, HttpError>>> {
    Poll::Ready(Some(Ok(Bytes::from(bytes.to_vec()))))
}

fn portion(read: Poll<Result<Bytes, HttpError>>) -> Vec<u8> {
    match read {
        Poll::Ready(Ok(bytes)) => bytes.to_vec(),
        _ => panic!("nothing was read"),
    }
}

#[test]
fn frames_without_data_are_waited_out() {
    let stream = ReadFuture(0);
    let full = stream.poll_next(FramePoll::Data(Bytes::from(vec![1])));
    assert_eq!(frame(full), Some(vec![1]));
    assert!(matches!(stream.poll_next(FramePoll::Data(Bytes::new())), Poll::Pending));
    assert!(matches!(stream.poll_next(FramePoll::Trailers), Poll::Pending));
    assert!(matches!(stream.poll_next(FramePoll::Pending), Poll::Pending));
    let failed = stream.poll_next(FramePoll::Failed(HttpError::WriteFailed));
    assert!(matches!(failed, Poll::Pending));
    assert_eq!(frame(stream.poll_next(FramePoll::End)), None);
}

#[test]
fn bodies_are_read_in_portions() {
    let mut body = HttpRequestBody::new();
    assert_eq!(body.name(), "requestBody");
    assert!(body.needs_poll());
    assert!(matches!(body.read(4, Poll::Pending), Poll::Pending));
    assert_eq!(portion(body.read(2, data(b"abcde"))), b"ab");
    assert!(!body.needs_poll());
    assert_eq!(portion(body.read(0, Poll::Pending)), b"");
    assert_eq!(portion(body.read(2, data(b"never looked at"))), b"cd");
    assert_eq!(portion(body.read(2, Poll::Pending)), b"e");
    assert!(body.needs_poll());
    assert_eq!(portion(body.read(3, data(b"fgh"))), b"fgh");
    let failed = Poll::Ready(Some(Err(HttpError::WriteFailed)));
    assert!(matches!(
        body.read(3, failed),
        Poll::Ready(Err(HttpError::WriteFailed))
    ));
    assert_eq!(portion(body.read(3, data(b"i"))), b"i");
    assert_eq!(portion(body.read(3, Poll::Ready(None))), b"");
    assert!(!body.needs_poll());
    assert_eq!(portion(body.read(3, data(b"too late"))), b"");
}

#[test]
fn writers_give_out_their_queue() {
    let (tx, mut rx) = tokio::sync::mpsc::channel(1);
    let writer = HttpResponseBody::new(tx);
    writer.sender().try_send(Bytes::from(vec![8])).unwrap();
    assert_eq!(rx.try_recv().unwrap().to_vec(), vec![8]);
}

#[test]
fn errors_have_texts() {
    let text = |error: HttpError| error.message();
    assert_eq!(text(HttpError::ConnectionCompleted), "connection already completed");
    assert_eq!(text(HttpError::CannotUpgrade), "Impossible to upgrade this connection");
    assert_eq!(text(HttpError::WriteFailed), "failed to write");
    assert_eq!(text(HttpError::IncompleteStream), "failed to write entire stream");
    assert_eq!(text(HttpError::HeaderMapFull), "max size reached");
    assert_eq!(text(HttpError::BadResourceId), "Bad resource ID");
    assert_eq!(text(HttpError::PromiseDropped), "nothing waits for the response any more");
    assert_eq!(
        text(HttpError::TrackerDropped(true)),
        "nothing tracks the response any more"
    );
    assert_eq!(text(HttpError::Runtime("boom".to_string())), "boom");
}
