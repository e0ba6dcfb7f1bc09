use deno_raw_http::raw::NetworkStreamType::{Tcp, Tls, Unix};
use deno_raw_http::raw::{
    put_network_stream_resource, take_network_stream_listener_resource,
    take_network_stream_resource, Accepted, AddressError, IpLocal, NetworkStream,
    NetworkStreamListenAddress, NetworkStreamListener, NetworkStreamType, ResourceError,
    SocketAddress, TakeAction, TakeEvent, UnixAddress, UnixLocal,
};

fn ip(port: u16) -> SocketAddress {
    SocketAddress {
        ip: "127.0.0.1".to_string(),
        port,
        text: format!("127.0.0.1:{}", port),
    }
}

fn unix(path: &str) -> UnixAddress {
    UnixAddress { pathname: Some(path.to_string()) }
}

fn run(
    step: fn(Option<(NetworkStreamType, TakeEvent<u32>)>) -> TakeAction<u32>,
    kind: Option<NetworkStreamType>,
    event: TakeEvent<u32>,
) -> (Vec<NetworkStreamType>, Result<u32, ResourceError>) {
    let mut event = Some(event);
    let mut tried = vec![];
    let mut last = None;
    loop {
        match step(last) {
            TakeAction::Try(k) => {
                tried.push(k);
                let answer = if kind == Some(k) { event.take() } else { None };
                last = Some((k, answer.unwrap_or(TakeEvent::Absent)));
            }
            TakeAction::Finish(r) => return (tried, r),
        }
    }
}

#[test]
fn streams_know_their_kind_and_address() {
    let tcp: NetworkStream = NetworkStream::Tcp(Ok(ip(80)));
    assert_eq!(tcp.stream(), NetworkStreamType::Tcp);
    assert_eq!(tcp.local_address(), Ok(NetworkStreamListenAddress::Ip(ip(80))));
    let tls: NetworkStream = NetworkStream::Tls(Ok(ip(443)));
    assert_eq!(tls.stream(), NetworkStreamType::Tls);
    assert_eq!(tls.local_address(), Ok(NetworkStreamListenAddress::Ip(ip(443))));
    let sock: NetworkStream = NetworkStream::Unix(Ok(unix("/s")));
    assert_eq!(sock.stream(), NetworkStreamType::Unix);
    assert_eq!(sock.local_address(), Ok(NetworkStreamListenAddress::Unix(unix("/s"))));
    let broken: NetworkStream = NetworkStream::Tcp(Err(AddressError { message: "gone".to_string() }));
    assert_eq!(broken.local_address(), Err(AddressError { message: "gone".to_string() }));
}

#[test]
fn listeners_know_their_kind_and_address() {
    let tcp = NetworkStreamListener::Tcp(Ok(ip(80)));
    assert_eq!(tcp.stream(), NetworkStreamType::Tcp);
    assert_eq!(tcp.listen_address(), Ok(NetworkStreamListenAddress::Ip(ip(80))));
    let tls = NetworkStreamListener::Tls(Ok(ip(443)));
    assert_eq!(tls.stream(), NetworkStreamType::Tls);
    assert_eq!(tls.listen_address(), Ok(NetworkStreamListenAddress::Ip(ip(443))));
    let sock = NetworkStreamListener::Unix(Ok(UnixAddress { pathname: None }));
    assert_eq!(sock.stream(), NetworkStreamType::Unix);
    assert_eq!(
        sock.listen_address(),
        Ok(NetworkStreamListenAddress::Unix(UnixAddress { pathname: None }))
    );
}

type Handed = Accepted<IpLocal, UnixLocal, String>;

#[test]
fn accepted_streams_are_of_the_listeners_kind() {
    let ip_conn = |port: u16| -> Handed { Accepted::Ip(Ok(ip(port))) };
    let tcp = NetworkStreamListener::Tcp(Ok(ip(80)));
    assert_eq!(tcp.accept(ip_conn(80)), Ok(NetworkStream::Tcp(Ok(ip(80)))));
    let tls = NetworkStreamListener::Tls(Ok(ip(443)));
    assert_eq!(tls.accept(ip_conn(443)), Ok(NetworkStream::Tls(Ok(ip(443)))));
    let sock = NetworkStreamListener::Unix(Ok(unix("/s")));
    let unix_conn: Handed = Accepted::Unix(Ok(unix("/s")));
    assert_eq!(sock.accept(unix_conn), Ok(NetworkStream::Unix(Ok(unix("/s")))));
    let failed: Handed = Accepted::Failed("too many files".to_string());
    assert_eq!(tcp.accept(failed), Err("too many files".to_string()));
}

#[test]
fn taking_a_stream_tries_each_kind_in_turn() {
    let take = take_network_stream_resource;
    assert_eq!(run(take, Some(Tcp), TakeEvent::Taken(7)), (vec![Tcp], Ok(7)));
    assert_eq!(run(take, Some(Tls), TakeEvent::Taken(8)), (vec![Tcp, Tls], Ok(8)));
    assert_eq!(run(take, Some(Unix), TakeEvent::Taken(9)), (vec![Tcp, Tls, Unix], Ok(9)));
    assert_eq!(
        run(take, None, TakeEvent::Taken(1)),
        (vec![Tcp, Tls, Unix], Err(ResourceError::BadResourceId))
    );
    assert_eq!(
        run(take, Some(Tls), TakeEvent::InUse),
        (vec![Tcp, Tls], Err(ResourceError::StreamInUse(Tls)))
    );
    assert_eq!(
        run(take, Some(Unix), TakeEvent::HalvesDiffer),
        (vec![Tcp, Tls, Unix], Err(ResourceError::HalvesDiffer(Unix)))
    );
}

#[test]
fn taking_a_listener_tries_each_kind_in_turn() {
    let take = take_network_stream_listener_resource;
    assert_eq!(run(take, Some(Unix), TakeEvent::Taken(9)), (vec![Tcp, Tls, Unix], Ok(9)));
    assert_eq!(
        run(take, Some(Tcp), TakeEvent::InUse),
        (vec![Tcp], Err(ResourceError::ListenerInUse(Tcp)))
    );
    assert_eq!(
        run(take, None, TakeEvent::InUse),
        (vec![Tcp, Tls, Unix], Err(ResourceError::BadResourceId))
    );
}

#[test]
fn a_stream_put_comes_out_as_the_same_stream() {
    let stream: NetworkStream<u8, u16, u32> = NetworkStream::Tls(5);
    let kind = put_network_stream_resource(&stream).unwrap();
    assert_eq!(kind, NetworkStreamType::Tls);
    assert_eq!(take_network_stream_resource::<()>(None), TakeAction::Try(Tcp));
    assert_eq!(
        take_network_stream_resource::<()>(Some((Tcp, TakeEvent::Absent))),
        TakeAction::Try(Tls)
    );
    assert_eq!(
        take_network_stream_resource(Some((kind, TakeEvent::Taken(stream)))),
        TakeAction::Finish(Ok(NetworkStream::Tls(5)))
    );
}

#[test]
fn accepted_connections_are_carried_along() {
    let tls = NetworkStreamListener::Tls(Ok(ip(443)));
    let accepted: Accepted<u8, u16, u32> = Accepted::Ip(3);
    assert_eq!(tls.accept(accepted), Ok(NetworkStream::Tls(3)));
    let tcp = NetworkStreamListener::Tcp(Ok(ip(80)));
    let accepted: Accepted<u8, u16, u32> = Accepted::Ip(4);
    assert_eq!(tcp.accept(accepted), Ok(NetworkStream::Tcp(4)));
    let failed: Accepted<u8, u16, u32> = Accepted::Failed(5);
    assert_eq!(tcp.accept(failed), Err(5));
}

#[test]
fn resource_errors_have_texts() {
    assert_eq!(ResourceError::BadResourceId.message(), "Bad resource ID");
    assert_eq!(ResourceError::StreamInUse(Tcp).message(), "TCP stream is currently in use");
    assert_eq!(ResourceError::StreamInUse(Tls).message(), "TLS stream is currently in use");
    assert_eq!(ResourceError::StreamInUse(Unix).message(), "UNIX stream is currently in use");
    assert_eq!(
        ResourceError::ListenerInUse(Tcp).message(),
        "TCP socket listener is currently in use"
    );
    assert_eq!(
        ResourceError::ListenerInUse(Tls).message(),
        "TLS socket listener is currently in use"
    );
    assert_eq!(
        ResourceError::ListenerInUse(Unix).message(),
        "UNIX socket listener is currently in use"
    );
    assert_eq!(
        ResourceError::HalvesDiffer(Tcp).message(),
        "tried to reunite halves that are not from the same socket"
    );
}
