//! A request as it came in, and what can be read from it.

use crate::http::headers;
use crate::http::text;
use crate::raw;
use crate::raw::{NetworkStream, NetworkStreamListenAddress, NetworkStreamType};
use hyper::http::uri::Authority;
use hyper::HeaderMap;
use vstd::prelude::*;
use vstd::string::{StringExecFns, StringSliceAdditionalSpecFns};

verus! {

/// The target of a request.
pub struct Uri {
    /// The whole target, as text.
    pub text: String,
    /// The authority, where the target names one.
    pub authority: Option<Authority>,
}

/// A request: everything but its body.
pub struct Request {
    /// The method, as text.
    pub method: String,
    /// The target.
    pub uri: Uri,
    /// The headers.
    pub headers: HeaderMap,
}

/// The scheme of the URLs that a kind of stream serves.
pub open spec fn scheme_of(stream_type: NetworkStreamType) -> Seq<char> {
    match stream_type {
        NetworkStreamType::Tcp => "http://"@,
        NetworkStreamType::Tls => "https://"@,
        NetworkStreamType::Unix => "http+unix://"@,
    }
}

/// Whether a port is the one that goes without saying for a kind of stream.
pub open spec fn is_default_port(stream_type: NetworkStreamType, port: u16) -> bool {
    ||| stream_type == NetworkStreamType::Tls && port == 443
    ||| stream_type == NetworkStreamType::Tcp && port == 80
}

/// The path of a Unix socket, empty where it has none.
pub open spec fn path_text(address: raw::UnixAddress) -> Seq<char> {
    match address.pathname {
        Some(path) => path@,
        None => Seq::empty(),
    }
}

/// The host that stands for an address.
pub open spec fn fallback_host(
    stream_type: NetworkStreamType,
    address: NetworkStreamListenAddress,
) -> Seq<char> {
    match address {
        NetworkStreamListenAddress::Ip(ip) => if is_default_port(stream_type, ip.port) {
            ip.ip@
        } else {
            ip.text@
        },
        NetworkStreamListenAddress::Unix(unix) => text::percent_encoded(
            vstd::utf8::encode_utf8(path_text(unix)),
        ),
    }
}

/// The URL that requests without a host of their own are taken to be for.
pub open spec fn fallback_url(
    stream_type: NetworkStreamType,
    address: NetworkStreamListenAddress,
) -> Seq<char> {
    scheme_of(stream_type) + fallback_host(stream_type, address)
}

/// Computes the fallback host from the address that is listened on. Where a request names
/// no authority and has no host header, this takes their place. The default port of the
/// stream's kind is left out. There is no standard way to write URLs for Unix domain
/// sockets; the path is percent-encoded and takes the place of the host.
pub fn req_host_from_addr(
    stream_type: NetworkStreamType,
    addr: &NetworkStreamListenAddress,
) -> (host: String)
    ensures
        host@ == fallback_host(stream_type, *addr),
{
    match addr {
        NetworkStreamListenAddress::Ip(addr) => {
            if stream_type == NetworkStreamType::Tls && addr.port == 443 {
                addr.ip.clone()
            } else if stream_type == NetworkStreamType::Tcp && addr.port == 80 {
                addr.ip.clone()
            } else {
                addr.text.clone()
            }
        },
        NetworkStreamListenAddress::Unix(unix) => {
            let path = match &unix.pathname {
                Some(path) => path.clone(),
                None => String::new(),
            };
            text::encode_percent(path.as_str().as_bytes())
        },
    }
}

/// The scheme for a kind of stream.
pub fn req_scheme_from_stream_type(stream_type: NetworkStreamType) -> (scheme: &'static str)
    ensures
        scheme@ == scheme_of(stream_type),
{
    match stream_type {
        NetworkStreamType::Tcp => "http://",
        NetworkStreamType::Tls => "https://",
        NetworkStreamType::Unix => "http+unix://",
    }
}

/// The fallback URL: scheme and fallback host.
pub fn req_fallback_url(
    stream_type: NetworkStreamType,
    addr: &NetworkStreamListenAddress,
) -> (url: String)
    ensures
        url@ == fallback_url(stream_type, *addr),
{
    let host = req_host_from_addr(stream_type, addr);
    let mut url = req_scheme_from_stream_type(stream_type).to_owned();
    url.append(host.as_str());
    url
}

/// The port that a stream is bound to, where it has one.
pub open spec fn bound_port(stream: NetworkStream) -> Option<u16> {
    match stream {
        NetworkStream::Tcp(Ok(address)) => Some(address.port),
        NetworkStream::Tls(Ok(address)) => Some(address.port),
        _ => None,
    }
}

/// The host that a request is for. A stream on a Unix socket has none. Otherwise the
/// authority of the target counts, without its port and its user information where the
/// stream is on its default port, and in full where it is not. Failing that the first host
/// header counts, each of its bytes read as one character.
pub open spec fn host_of(req: Request, stream: NetworkStream) -> Option<Seq<char>> {
    if stream is Unix {
        None
    } else if let Some(authority) = req.uri.authority {
        if is_default_port(stream.kind(), bound_port(stream)->0) {
            Some(text::host_part(text::authority_text(authority)))
        } else {
            Some(text::authority_text(authority))
        }
    } else {
        let name = vstd::utf8::encode_utf8("host"@);
        if headers::header_map(req.headers).contains_key(name) {
            Some(headers::latin_text(headers::header_map(req.headers)[name][0]))
        } else {
            None
        }
    }
}

/// Bytes as text, each byte one character.
fn text_of_bytes(bytes: &[u8]) -> (result: String)
    ensures
        result@ == headers::latin_text(bytes@),
{
    let mut result = String::new();
    let mut i: usize = 0;
    while i < bytes.len()
        invariant
            i <= bytes.len(),
            result@ == headers::latin_text(bytes@.take(i as int)),
        decreases bytes.len() - i,
    {
        result.push(bytes[i] as char);
        assert(bytes@.take(i + 1) =~= bytes@.take(i as int).push(bytes@[i as int]));
        assert(headers::latin_text(bytes@.take(i + 1)) =~= headers::latin_text(
            bytes@.take(i as int),
        ).push(bytes@[i as int] as char));
        i += 1;
    }
    assert(bytes@.take(i as int) =~= bytes@);
    result
}

/// The name of the host header is in lower case already.
proof fn lemma_host_name()
    ensures
        headers::lower_bytes(vstd::utf8::encode_utf8("host"@)) == vstd::utf8::encode_utf8("host"@),
{
    reveal_strlit("host");
    vstd::utf8::is_ascii_chars_encode_utf8("host"@);
    assert(headers::lower_bytes(vstd::utf8::encode_utf8("host"@)) =~= vstd::utf8::encode_utf8(
        "host"@,
    ));
}

/// Finds the host that a request is for. A URI without an authority has no host, so the
/// host header is the next place to look; most requests have it there.
pub fn req_host(req: &Request, addr: &NetworkStream) -> (host: Option<String>)
    requires
        req.uri.authority is Some && !(addr is Unix) ==> bound_port(*addr) is Some,
    ensures
        match host_of(*req, *addr) {
            Some(text) => host matches Some(h) && h@ == text,
            None => host is None,
        },
{
    if let NetworkStream::Unix(_) = addr {
        return None;
    }
    if let Some(authority) = &req.uri.authority {
        match addr {
            NetworkStream::Tcp(Ok(tcp)) => {
                if tcp.port == 80 {
                    return Some(text::authority_host(authority).to_owned());
                }
            },
            NetworkStream::Tls(Ok(tls)) => {
                if tls.port == 443 {
                    return Some(text::authority_host(authority).to_owned());
                }
            },
            _ => {},
        }
        return Some(text::authority_str(authority).to_owned());
    }
    proof {
        lemma_host_name();
    }
    match headers::get_header(&req.headers, "host") {
        Some(host) => Some(
            match headers::value_text(host) {
                Ok(text) => text.to_owned(),
                Err(_) => text_of_bytes(headers::value_bytes(host)),
            },
        ),
        None => None,
    }
}

/// The default port of a kind of stream does not show in its fallback URL, and any other
/// port does.
pub proof fn law_default_port_is_left_out(stream_type: NetworkStreamType, ip: raw::SocketAddress)
    ensures
        ({
            let url = fallback_url(stream_type, NetworkStreamListenAddress::Ip(ip));
            if is_default_port(stream_type, ip.port) {
                url == scheme_of(stream_type) + ip.ip@
            } else {
                url == scheme_of(stream_type) + ip.text@
            }
        }),
{
}

/// Whatever the path of a Unix socket, the host that stands for it holds nothing but ASCII
/// letters, digits and percent signs.
pub proof fn law_unix_host_is_plain(stream_type: NetworkStreamType, unix: raw::UnixAddress)
    ensures
        ({
            let host = fallback_host(stream_type, NetworkStreamListenAddress::Unix(unix));
            forall|i: int| 0 <= i < host.len() ==> text::is_encoded_char(#[trigger] host[i])
        }),
{
    text::law_encoding_is_plain(vstd::utf8::encode_utf8(path_text(unix)));
}

/// A request on a Unix socket has no host of its own, whatever it says.
pub proof fn law_unix_stream_has_no_host(req: Request, stream: NetworkStream)
    requires
        stream.kind() == NetworkStreamType::Unix,
    ensures
        host_of(req, stream) is None,
{
}

/// Unix sockets under different paths have different fallback URLs.
pub proof fn law_unix_urls_are_distinct(first: raw::UnixAddress, second: raw::UnixAddress)
    requires
        path_text(first) != path_text(second),
    ensures
        fallback_url(NetworkStreamType::Unix, NetworkStreamListenAddress::Unix(first))
            != fallback_url(NetworkStreamType::Unix, NetworkStreamListenAddress::Unix(second)),
{
    let a = vstd::utf8::encode_utf8(path_text(first));
    let b = vstd::utf8::encode_utf8(path_text(second));
    vstd::utf8::encode_utf8_decode_utf8(path_text(first));
    vstd::utf8::encode_utf8_decode_utf8(path_text(second));
    text::law_encoding_is_unambiguous(a, b);
    let scheme = scheme_of(NetworkStreamType::Unix);
    let host_a = text::percent_encoded(a);
    let host_b = text::percent_encoded(b);
    assert((scheme + host_a).skip(scheme.len() as int) =~= host_a);
    assert((scheme + host_b).skip(scheme.len() as int) =~= host_b);
}

/// The fallback URL of an IP socket, by numbers: over plain TCP the port shows unless it is 80,
/// over TLS unless it is 443.
pub proof fn law_fallback_url_of_an_ip_socket(ip: raw::SocketAddress)
    ensures
        fallback_url(NetworkStreamType::Tcp, NetworkStreamListenAddress::Ip(ip)) == "http://"@ + (
        if ip.port == 80 {
            ip.ip@
        } else {
            ip.text@
        }),
        fallback_url(NetworkStreamType::Tls, NetworkStreamListenAddress::Ip(ip)) == "https://"@ + (
        if ip.port == 443 {
            ip.ip@
        } else {
            ip.text@
        }),
        fallback_host(NetworkStreamType::Unix, NetworkStreamListenAddress::Ip(ip)) == ip.text@,
{
}

/// The fallback URL of a Unix socket is made of its scheme and of the bytes of its path in
/// percent-encoding, whatever the kind of the stream; a socket without a path has an empty
/// host.
pub proof fn law_fallback_url_of_a_unix_socket(
    stream_type: NetworkStreamType,
    unix: raw::UnixAddress,
)
    ensures
        fallback_url(NetworkStreamType::Unix, NetworkStreamListenAddress::Unix(unix))
            == "http+unix://"@ + fallback_host(
            stream_type,
            NetworkStreamListenAddress::Unix(unix),
        ),
        unix.pathname matches Some(path) ==> fallback_host(
            stream_type,
            NetworkStreamListenAddress::Unix(unix),
        ) == text::percent_encoded(vstd::utf8::encode_utf8(path@)),
        unix.pathname is None ==> fallback_host(
            stream_type,
            NetworkStreamListenAddress::Unix(unix),
        ).len() == 0,
{
    if unix.pathname is None {
        assert(vstd::utf8::encode_utf8(Seq::<char>::empty()) =~= Seq::<u8>::empty());
    }
}

/// A request whose target names an authority is for that authority, in full; only on port 80
/// over plain TCP and on port 443 over TLS is it for the host of the authority alone. The host
/// header plays no part.
pub proof fn law_authority_names_the_host(req: Request, ip: raw::SocketAddress)
    requires
        req.uri.authority is Some,
    ensures
        ({
            let full = text::authority_text(req.uri.authority->0);
            &&& host_of(req, NetworkStream::Tcp(Ok(ip))) == Some(
                if ip.port == 80 {
                    text::host_part(full)
                } else {
                    full
                },
            )
            &&& host_of(req, NetworkStream::Tls(Ok(ip))) == Some(
                if ip.port == 443 {
                    text::host_part(full)
                } else {
                    full
                },
            )
        }),
{
}

/// A request without an authority on an IP socket is for the first host header, each byte of
/// which is the number of a character; without a host header it has no host.
pub proof fn law_host_header_names_the_host(req: Request, stream: NetworkStream)
    requires
        req.uri.authority is None,
        !(stream is Unix),
    ensures
        ({
            let values = headers::header_map(req.headers);
            let name = vstd::utf8::encode_utf8("host"@);
            match host_of(req, stream) {
                Some(host) => {
                    &&& values.contains_key(name)
                    &&& host.len() == values[name][0].len()
                    &&& forall|i: int|
                        0 <= i < host.len() ==> (#[trigger] host[i]) as int
                            == values[name][0][i] as int
                },
                None => !values.contains_key(name),
            }
        }),
{
}

/// The port of a stream is that of its address, where it has one.
pub proof fn law_ports_are_of_addresses(
    ip: raw::SocketAddress,
    error: raw::AddressError,
    sock: raw::UnixLocal,
)
    ensures
        bound_port(NetworkStream::Tcp(Ok(ip))) == Some(ip.port),
        bound_port(NetworkStream::Tls(Ok(ip))) == Some(ip.port),
        bound_port(NetworkStream::Tcp(Err(error))) is None,
        bound_port(NetworkStream::Tls(Err(error))) is None,
        bound_port(NetworkStream::Unix(sock)) is None,
{
}

} // verus!
