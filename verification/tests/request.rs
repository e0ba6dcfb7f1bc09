use deno_raw_http::http::callback::{serve_http, HttpCallback};
use deno_raw_http::http::ops::{
    op_get_request_header, op_get_request_headers, op_get_request_method_and_url,
    op_read_request_body,
};
use deno_raw_http::http::pair::{new_slab, slab_insert};
use deno_raw_http::http::request::{
    req_fallback_url, req_host, req_host_from_addr, req_scheme_from_stream_type, Request, Uri,
};
use deno_raw_http::http::serve::{op_serve_http, op_serve_http_on};
use deno_raw_http::raw::{
    AddressError, NetworkStream, NetworkStreamListenAddress, NetworkStreamListener,
    NetworkStreamType, SocketAddress, UnixAddress,
};
use hyper::header::{HeaderName, HeaderValue};
use hyper::HeaderMap;

fn ip(port: u16) -> SocketAddress {
    SocketAddress {
        ip: "127.0.0.1".to_string(),
        port,
        text: format!("127.0.0.1:{}", port),
    }
}

fn ip_addr(port: u16) -> NetworkStreamListenAddress {
    NetworkStreamListenAddress::Ip(ip(port))
}

fn unix_addr(path: &str) -> NetworkStreamListenAddress {
    NetworkStreamListenAddress::Unix(UnixAddress { pathname: Some(path.to_string()) })
}

fn request(target: &str, headers: &[(&str, &[u8])]) -> Request {
    let uri: hyper::Uri = target.parse().unwrap();
    let mut map = HeaderMap::new();
    for (name, value) in headers {
        map.append(
            HeaderName::from_bytes(name.as_bytes()).unwrap(),
            HeaderValue::from_bytes(value).unwrap(),
        );
    }
    Request {
        method: "GET".to_string(),
        uri: Uri { text: uri.to_string(), authority: uri.authority().cloned() },
        headers: map,
    }
}

#[test]
fn default_ports_are_left_out() {
    let host = |kind, port| req_host_from_addr(kind, &ip_addr(port));
    assert_eq!(host(NetworkStreamType::Tcp, 80), "127.0.0.1");
    assert_eq!(host(NetworkStreamType::Tls, 443), "127.0.0.1");
    assert_eq!(host(NetworkStreamType::Tcp, 443), "127.0.0.1:443");
    assert_eq!(host(NetworkStreamType::Tls, 80), "127.0.0.1:80");
    assert_eq!(host(NetworkStreamType::Tcp, 8080), "127.0.0.1:8080");
}

#[test]
fn unix_paths_are_percent_encoded() {
    let kind = NetworkStreamType::Unix;
    assert_eq!(
        req_host_from_addr(kind, &unix_addr("/tmp/my sock-1.s")),
        "%2Ftmp%2Fmy%20sock%2D1%2Es"
    );
    assert_eq!(req_host_from_addr(kind, &unix_addr("\u{e9}~")), "%C3%A9%7E");
    assert_eq!(req_host_from_addr(kind, &unix_addr("aZ09")), "aZ09");
    let unnamed = NetworkStreamListenAddress::Unix(UnixAddress { pathname: None });
    assert_eq!(req_host_from_addr(kind, &unnamed), "");
}

#[test]
fn different_unix_paths_have_different_urls() {
    let kind = NetworkStreamType::Unix;
    assert_ne!(
        req_fallback_url(kind, &unix_addr("/a/b")),
        req_fallback_url(kind, &unix_addr("%2Fa%2Fb"))
    );
}

#[test]
fn schemes_follow_the_stream_kind() {
    assert_eq!(req_scheme_from_stream_type(NetworkStreamType::Tcp), "http://");
    assert_eq!(req_scheme_from_stream_type(NetworkStreamType::Tls), "https://");
    assert_eq!(req_scheme_from_stream_type(NetworkStreamType::Unix), "http+unix://");
}

#[test]
fn fallback_urls_join_scheme_and_host() {
    assert_eq!(req_fallback_url(NetworkStreamType::Tcp, &ip_addr(80)), "http://127.0.0.1");
    assert_eq!(
        req_fallback_url(NetworkStreamType::Tls, &ip_addr(8443)),
        "https://127.0.0.1:8443"
    );
    assert_eq!(
        req_fallback_url(NetworkStreamType::Unix, &unix_addr("/s")),
        "http+unix://%2Fs"
    );
}

#[test]
fn handlers_are_started_with_the_fallback_url() {
    let listener = NetworkStreamListener::Tls(Ok(ip(443)));
    assert_eq!(op_serve_http(&listener), Ok("https://127.0.0.1".to_string()));
    let stream = NetworkStream::Tcp(Ok(ip(81)));
    assert_eq!(op_serve_http_on(&stream), Ok("http://127.0.0.1:81".to_string()));
    let gone = || AddressError { message: "gone".to_string() };
    assert_eq!(op_serve_http(&NetworkStreamListener::Unix(Err(gone()))), Err(gone()));
    assert_eq!(op_serve_http_on(&NetworkStream::Tls(Err(gone()))), Err(gone()));
}

#[test]
fn authority_counts_before_the_host_header() {
    let req = request("http://user@example.com:8080/x", &[("host", b"other")]);
    let host = |stream| req_host(&req, &stream);
    assert_eq!(
        host(NetworkStream::Tcp(Ok(ip(8080)))),
        Some("user@example.com:8080".to_string())
    );
    assert_eq!(host(NetworkStream::Tcp(Ok(ip(80)))), Some("example.com".to_string()));
    assert_eq!(host(NetworkStream::Tls(Ok(ip(443)))), Some("example.com".to_string()));
    assert_eq!(
        host(NetworkStream::Tls(Ok(ip(80)))),
        Some("user@example.com:8080".to_string())
    );
    assert_eq!(host(NetworkStream::Unix(Ok(UnixAddress { pathname: None }))), None);
}

#[test]
fn bracketed_hosts_keep_their_brackets() {
    let req = request("http://[::1]:80/", &[]);
    assert_eq!(req_host(&req, &NetworkStream::Tcp(Ok(ip(80)))), Some("[::1]".to_string()));
    assert_eq!(req_host(&req, &NetworkStream::Tcp(Ok(ip(81)))), Some("[::1]:80".to_string()));
}

#[test]
fn host_header_is_the_next_place_to_look() {
    let stream = NetworkStream::Tcp(Ok(ip(80)));
    let req = request("/path", &[("Host", b"first:90"), ("host", b"second")]);
    assert_eq!(req_host(&req, &stream), Some("first:90".to_string()));
    let req = request("/path", &[("HOST", b"caf\xe9\xff")]);
    assert_eq!(req_host(&req, &stream), Some("caf\u{e9}\u{ff}".to_string()));
    let req = request("/path", &[]);
    assert_eq!(req_host(&req, &stream), None);
    let unknown = NetworkStream::Tcp(Err(AddressError { message: "gone".to_string() }));
    assert_eq!(req_host(&req, &unknown), None);
}

#[test]
fn method_and_target_are_read_back() {
    let mut slab = new_slab();
    let index = slab_insert(&mut slab, request("http://h/p?q", &[]));
    assert_eq!(
        op_get_request_method_and_url(&slab, index),
        ("GET".to_string(), None, "http://h/p?q".to_string())
    );
}

#[test]
fn headers_are_read_without_regard_to_case() {
    let mut slab = new_slab();
    let headers: [(&str, &[u8]); 3] = [("X-One", b"1"), ("x-two", b"\xfe"), ("x-one", b"3")];
    let index = slab_insert(&mut slab, request("/", &headers));
    let get = |name: &str| op_get_request_header(&slab, index, name.to_string());
    assert_eq!(get("x-ONE"), Some(b"1".to_vec()));
    assert_eq!(get("X-TWO"), Some(b"\xfe".to_vec()));
    assert_eq!(get("x-three"), None);
    assert_eq!(get("not a name"), None);
    assert_eq!(get(""), None);
    let long = "A".repeat(70);
    assert_eq!(get(&long), None);
}

#[test]
fn long_header_names_are_found_too() {
    let mut slab = new_slab();
    let long = "Ab".repeat(40);
    let index = slab_insert(&mut slab, request("/", &[(long.as_str(), b"v")]));
    assert_eq!(
        op_get_request_header(&slab, index, "aB".repeat(40)),
        Some(b"v".to_vec())
    );
}

#[test]
fn all_headers_are_listed() {
    let mut slab = new_slab();
    let headers: [(&str, &[u8]); 3] = [("a", b"1"), ("b", b"2"), ("A", b"3")];
    let index = slab_insert(&mut slab, request("/", &headers));
    let all = op_get_request_headers(&slab, index);
    assert_eq!(all.len(), 3);
    let of = |name: &[u8]| -> Vec<Vec<u8>> {
        all.iter().filter(|(n, _)| n.as_slice() == name).map(|(_, v)| v.clone()).collect()
    };
    assert_eq!(of(b"a"), vec![b"1".to_vec(), b"3".to_vec()]);
    assert_eq!(of(b"b"), vec![b"2".to_vec()]);
}

#[test]
fn requests_get_entries_of_their_own() {
    let mut slab = new_slab();
    let callback = HttpCallback {};
    let (first, _) = serve_http(&mut slab, &callback, request("/1", &[]));
    let (second, _) = serve_http(&mut slab, &callback, request("/2", &[]));
    assert_ne!(first, second);
    assert_eq!(op_read_request_body(&mut slab, first, 9), 9);
    assert_eq!(slab.get(first).unwrap().body, Some(9));
    assert_eq!(slab.get(second).unwrap().body, None);
    assert_eq!(op_get_request_method_and_url(&slab, second).2, "/2");
    let fresh = slab.get(first).unwrap().response.as_ref().unwrap();
    assert_eq!(fresh.status, 200);
    assert!(fresh.headers.is_empty());
    assert!(fresh.body.is_end_stream());
}
