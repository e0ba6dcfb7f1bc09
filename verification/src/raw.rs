//! Raw network streams and listeners: their kinds, their addresses, and how one is moved
//! out of a table of resources and back into it.
//!
//! A stream carries its connection, whatever the runtime holds for it. Where only the address
//! counts, what the operating system answered when it was asked for the local address takes
//! the connection's place.

use vstd::prelude::*;

verus! {

/// The kinds of raw stream.
#[derive(Debug, Copy, Clone, PartialEq, Eq, Structural)]
pub enum NetworkStreamType {
    /// Plain TCP.
    Tcp,
    /// TLS on top of TCP.
    Tls,
    /// A Unix domain socket.
    Unix,
}

/// The address of an IP socket.
#[derive(Debug, PartialEq, Eq)]
pub struct SocketAddress {
    /// The IP address alone, as text.
    pub ip: String,
    /// The port.
    pub port: u16,
    /// The IP address and the port, as text.
    pub text: String,
}

/// The address of a Unix domain socket.
#[derive(Debug, PartialEq, Eq)]
pub struct UnixAddress {
    /// The path that the socket is bound to, where it has one that is text.
    pub pathname: Option<String>,
}

/// Why the operating system did not give an address.
#[derive(Debug, PartialEq, Eq)]
pub struct AddressError {
    /// The words of the operating system.
    pub message: String,
}

/// An address that a stream or a listener is bound to.
#[derive(Debug, PartialEq, Eq)]
pub enum NetworkStreamListenAddress {
    /// Of an IP socket.
    Ip(SocketAddress),
    /// Of a Unix domain socket.
    Unix(UnixAddress),
}

impl SocketAddress {
    /// The same address once more.
    fn duplicate(&self) -> (r: SocketAddress)
        ensures
            r == *self,
    {
        SocketAddress { ip: self.ip.clone(), port: self.port, text: self.text.clone() }
    }
}

impl UnixAddress {
    /// The same address once more.
    fn duplicate(&self) -> (r: UnixAddress)
        ensures
            r == *self,
    {
        match &self.pathname {
            Some(path) => UnixAddress { pathname: Some(path.clone()) },
            None => UnixAddress { pathname: None },
        }
    }
}

impl AddressError {
    /// The same error once more.
    fn duplicate(&self) -> (r: AddressError)
        ensures
            r == *self,
    {
        AddressError { message: self.message.clone() }
    }
}

/// The answer to a question for an IP address, as a listen address.
fn ip_listen_address(local: &Result<SocketAddress, AddressError>) -> (r: Result<
    NetworkStreamListenAddress,
    AddressError,
>)
    ensures
        r == ip_address(*local),
{
    match local {
        Ok(address) => Ok(NetworkStreamListenAddress::Ip(address.duplicate())),
        Err(error) => Err(error.duplicate()),
    }
}

/// The answer to a question for a Unix address, as a listen address.
fn unix_listen_address(local: &Result<UnixAddress, AddressError>) -> (r: Result<
    NetworkStreamListenAddress,
    AddressError,
>)
    ensures
        r == unix_address(*local),
{
    match local {
        Ok(address) => Ok(NetworkStreamListenAddress::Unix(address.duplicate())),
        Err(error) => Err(error.duplicate()),
    }
}

/// An IP address, or the error in its place.
pub open spec fn ip_address(local: Result<SocketAddress, AddressError>) -> Result<
    NetworkStreamListenAddress,
    AddressError,
> {
    match local {
        Ok(address) => Ok(NetworkStreamListenAddress::Ip(address)),
        Err(error) => Err(error),
    }
}

/// A Unix address, or the error in its place.
pub open spec fn unix_address(local: Result<UnixAddress, AddressError>) -> Result<
    NetworkStreamListenAddress,
    AddressError,
> {
    match local {
        Ok(address) => Ok(NetworkStreamListenAddress::Unix(address)),
        Err(error) => Err(error),
    }
}

/// What the operating system answered about the address of an IP socket.
pub type IpLocal = Result<SocketAddress, AddressError>;

/// What the operating system answered about the address of a Unix domain socket.
pub type UnixLocal = Result<UnixAddress, AddressError>;

/// A raw stream. It carries its connection, or the answer about its local address.
#[derive(Debug, PartialEq, Eq)]
pub enum NetworkStream<T = IpLocal, L = IpLocal, U = UnixLocal> {
    /// Plain TCP.
    Tcp(T),
    /// TLS on top of TCP.
    Tls(L),
    /// A Unix domain socket.
    Unix(U),
}

impl<T, L, U> NetworkStream<T, L, U> {
    /// The kind of the stream.
    pub open spec fn kind(self) -> NetworkStreamType {
        match self {
            NetworkStream::Tcp(_) => NetworkStreamType::Tcp,
            NetworkStream::Tls(_) => NetworkStreamType::Tls,
            NetworkStream::Unix(_) => NetworkStreamType::Unix,
        }
    }

    /// The kind of the stream.
    pub fn stream(&self) -> (kind: NetworkStreamType)
        ensures
            kind == self.kind(),
    {
        match self {
            NetworkStream::Tcp(_) => NetworkStreamType::Tcp,
            NetworkStream::Tls(_) => NetworkStreamType::Tls,
            NetworkStream::Unix(_) => NetworkStreamType::Unix,
        }
    }
}

impl NetworkStream {
    /// What the operating system answered about the stream's address.
    pub open spec fn address(self) -> Result<NetworkStreamListenAddress, AddressError> {
        match self {
            NetworkStream::Tcp(local) => ip_address(local),
            NetworkStream::Tls(local) => ip_address(local),
            NetworkStream::Unix(local) => unix_address(local),
        }
    }

    /// The local address of the stream.
    pub fn local_address(&self) -> (r: Result<NetworkStreamListenAddress, AddressError>)
        ensures
            r == self.address(),
    {
        match self {
            NetworkStream::Tcp(local) => ip_listen_address(local),
            NetworkStream::Tls(local) => ip_listen_address(local),
            NetworkStream::Unix(local) => unix_listen_address(local),
        }
    }
}

/// A raw stream listener, by its local address.
#[derive(Debug, PartialEq, Eq)]
pub enum NetworkStreamListener {
    /// Plain TCP.
    Tcp(Result<SocketAddress, AddressError>),
    /// TLS on top of TCP.
    Tls(Result<SocketAddress, AddressError>),
    /// A Unix domain socket.
    Unix(Result<UnixAddress, AddressError>),
}

/// What the operating system handed out when a connection was accepted: the connection, or
/// why there is none.
#[derive(Debug, PartialEq, Eq)]
pub enum Accepted<T, U, E> {
    /// A connection of an IP socket.
    Ip(T),
    /// A connection of a Unix domain socket.
    Unix(U),
    /// No connection, for this reason.
    Failed(E),
}

impl NetworkStreamListener {
    /// The kind of the listener.
    pub open spec fn kind(self) -> NetworkStreamType {
        match self {
            NetworkStreamListener::Tcp(_) => NetworkStreamType::Tcp,
            NetworkStreamListener::Tls(_) => NetworkStreamType::Tls,
            NetworkStreamListener::Unix(_) => NetworkStreamType::Unix,
        }
    }

    /// What the operating system answered about the listener's address.
    pub open spec fn address(self) -> Result<NetworkStreamListenAddress, AddressError> {
        match self {
            NetworkStreamListener::Tcp(local) => ip_address(local),
            NetworkStreamListener::Tls(local) => ip_address(local),
            NetworkStreamListener::Unix(local) => unix_address(local),
        }
    }

    /// Whether a socket of this kind can hand out such a connection.
    pub open spec fn hands_out<T, U, E>(self, accepted: Accepted<T, U, E>) -> bool {
        match accepted {
            Accepted::Ip(_) => self.kind() != NetworkStreamType::Unix,
            Accepted::Unix(_) => self.kind() == NetworkStreamType::Unix,
            Accepted::Failed(_) => true,
        }
    }

    /// The stream that an accepted connection becomes: of the listener's own kind, with that
    /// connection. One of a TLS listener is yet to be wrapped. A failure to accept is passed
    /// on.
    pub fn accept<T, U, E>(&self, accepted: Accepted<T, U, E>) -> (r: Result<
        NetworkStream<T, T, U>,
        E,
    >)
        requires
            self.hands_out(accepted),
        ensures
            r == match accepted {
                Accepted::Ip(connection) => if self.kind() == NetworkStreamType::Tls {
                    Ok::<NetworkStream<T, T, U>, E>(NetworkStream::Tls(connection))
                } else {
                    Ok(NetworkStream::Tcp(connection))
                },
                Accepted::Unix(connection) => Ok(NetworkStream::Unix(connection)),
                Accepted::Failed(reason) => Err(reason),
            },
            r matches Ok(stream) ==> stream.kind() == self.kind(),
    {
        match accepted {
            Accepted::Ip(connection) => match self {
                NetworkStreamListener::Tls(_) => Ok(NetworkStream::Tls(connection)),
                _ => Ok(NetworkStream::Tcp(connection)),
            },
            Accepted::Unix(connection) => Ok(NetworkStream::Unix(connection)),
            Accepted::Failed(reason) => Err(reason),
        }
    }

    /// The address that the listener is bound to.
    pub fn listen_address(&self) -> (r: Result<NetworkStreamListenAddress, AddressError>)
        ensures
            r == self.address(),
    {
        match self {
            NetworkStreamListener::Tcp(local) => ip_listen_address(local),
            NetworkStreamListener::Tls(local) => ip_listen_address(local),
            NetworkStreamListener::Unix(local) => unix_listen_address(local),
        }
    }

    /// The kind of the listener.
    pub fn stream(&self) -> (kind: NetworkStreamType)
        ensures
            kind == self.kind(),
    {
        match self {
            NetworkStreamListener::Tcp(_) => NetworkStreamType::Tcp,
            NetworkStreamListener::Tls(_) => NetworkStreamType::Tls,
            NetworkStreamListener::Unix(_) => NetworkStreamType::Unix,
        }
    }
}

/// Why a stream or a listener could not be moved out of the resource table.
#[derive(Debug, Copy, Clone, PartialEq, Eq, Structural)]
pub enum ResourceError {
    /// There is no such resource under the id.
    BadResourceId,
    /// Something else still uses the stream.
    StreamInUse(NetworkStreamType),
    /// Something else still uses the listener.
    ListenerInUse(NetworkStreamType),
    /// The two halves of the stream do not belong together.
    HalvesDiffer(NetworkStreamType),
}

impl ResourceError {
    /// The text of the error.
    pub open spec fn text(self) -> Seq<char> {
        match self {
            ResourceError::BadResourceId => "Bad resource ID"@,
            ResourceError::StreamInUse(NetworkStreamType::Tcp) => "TCP stream is currently in use"@,
            ResourceError::StreamInUse(NetworkStreamType::Tls) => "TLS stream is currently in use"@,
            ResourceError::StreamInUse(NetworkStreamType::Unix) =>
                "UNIX stream is currently in use"@,
            ResourceError::ListenerInUse(NetworkStreamType::Tcp) =>
                "TCP socket listener is currently in use"@,
            ResourceError::ListenerInUse(NetworkStreamType::Tls) =>
                "TLS socket listener is currently in use"@,
            ResourceError::ListenerInUse(NetworkStreamType::Unix) =>
                "UNIX socket listener is currently in use"@,
            ResourceError::HalvesDiffer(_) =>
                "tried to reunite halves that are not from the same socket"@,
        }
    }

    /// The text of the error.
    pub fn message(&self) -> (text: &'static str)
        ensures
            text@ == self.text(),
    {
        match self {
            ResourceError::BadResourceId => "Bad resource ID",
            ResourceError::StreamInUse(NetworkStreamType::Tcp) => "TCP stream is currently in use",
            ResourceError::StreamInUse(NetworkStreamType::Tls) => "TLS stream is currently in use",
            ResourceError::StreamInUse(NetworkStreamType::Unix) =>
                "UNIX stream is currently in use",
            ResourceError::ListenerInUse(NetworkStreamType::Tcp) =>
                "TCP socket listener is currently in use",
            ResourceError::ListenerInUse(NetworkStreamType::Tls) =>
                "TLS socket listener is currently in use",
            ResourceError::ListenerInUse(NetworkStreamType::Unix) =>
                "UNIX socket listener is currently in use",
            ResourceError::HalvesDiffer(_) =>
                "tried to reunite halves that are not from the same socket",
        }
    }
}

/// What became of an attempt to take a resource of one kind out of the table.
#[derive(Debug, PartialEq, Eq)]
pub enum TakeEvent<S> {
    /// There is no resource of that kind under the id.
    Absent,
    /// The resource left the table, but something else still uses it.
    InUse,
    /// The resource left the table, and its two halves do not belong together.
    HalvesDiffer,
    /// The resource left the table and is whole: this is what it held.
    Taken(S),
}

/// What to do next to move a resource out of the table.
#[derive(Debug, PartialEq, Eq)]
pub enum TakeAction<S> {
    /// Try to take a resource of this kind.
    Try(NetworkStreamType),
    /// Stop with this result.
    Finish(Result<S, ResourceError>),
}

/// The kind that is tried after another one.
pub open spec fn kind_after(kind: NetworkStreamType) -> Option<NetworkStreamType> {
    match kind {
        NetworkStreamType::Tcp => Some(NetworkStreamType::Tls),
        NetworkStreamType::Tls => Some(NetworkStreamType::Unix),
        NetworkStreamType::Unix => None,
    }
}

/// What to do next: the kinds are tried in turn until one is there. `last` is the kind
/// tried last and what became of it; `in_use` the error for one that is still used.
pub open spec fn next_take<S>(
    last: Option<(NetworkStreamType, TakeEvent<S>)>,
    in_use: spec_fn(NetworkStreamType) -> ResourceError,
) -> TakeAction<S> {
    match last {
        None => TakeAction::Try(NetworkStreamType::Tcp),
        Some((kind, TakeEvent::Absent)) => match kind_after(kind) {
            Some(next) => TakeAction::Try(next),
            None => TakeAction::Finish(Err(ResourceError::BadResourceId)),
        },
        Some((kind, TakeEvent::InUse)) => TakeAction::Finish(Err(in_use(kind))),
        Some((kind, TakeEvent::HalvesDiffer)) => TakeAction::Finish(
            Err(ResourceError::HalvesDiffer(kind)),
        ),
        Some((_, TakeEvent::Taken(taken))) => TakeAction::Finish(Ok(taken)),
    }
}

/// What to do next to move a stream out of the table.
pub open spec fn next_stream_take<S>(last: Option<(NetworkStreamType, TakeEvent<S>)>) -> TakeAction<S> {
    next_take(last, |kind: NetworkStreamType| ResourceError::StreamInUse(kind))
}

/// What to do next to move a listener out of the table.
pub open spec fn next_listener_take<S>(last: Option<(NetworkStreamType, TakeEvent<S>)>) -> TakeAction<S> {
    next_take(last, |kind: NetworkStreamType| ResourceError::ListenerInUse(kind))
}

/// Moves a stream out of the resource table, one step at a time. `last` is the kind that
/// was tried last and what became of it, or nothing at the start. A stream that something
/// else still uses cannot be unwrapped. The halves of a TLS stream always belong together.
pub fn take_network_stream_resource<S>(last: Option<(NetworkStreamType, TakeEvent<S>)>) -> (action:
    TakeAction<S>)
    requires
        !(last matches Some((NetworkStreamType::Tls, TakeEvent::HalvesDiffer))),
    ensures
        action == next_stream_take(last),
        last matches Some((_, TakeEvent::Taken(taken))) ==> action == TakeAction::Finish(
            Ok::<S, ResourceError>(taken),
        ),
        action matches TakeAction::Finish(Ok(taken)) ==> (last matches Some(
            (_, TakeEvent::Taken(t)),
        ) && t == taken),
        action matches TakeAction::Finish(Err(ResourceError::StreamInUse(kind))) ==> (last matches Some(
            (k, TakeEvent::InUse),
        ) && k == kind),
{
    match last {
        None => TakeAction::Try(NetworkStreamType::Tcp),
        Some((kind, TakeEvent::Absent)) => match kind {
            NetworkStreamType::Tcp => TakeAction::Try(NetworkStreamType::Tls),
            NetworkStreamType::Tls => TakeAction::Try(NetworkStreamType::Unix),
            NetworkStreamType::Unix => TakeAction::Finish(Err(ResourceError::BadResourceId)),
        },
        Some((kind, TakeEvent::InUse)) => TakeAction::Finish(Err(ResourceError::StreamInUse(kind))),
        Some((kind, TakeEvent::HalvesDiffer)) => TakeAction::Finish(
            Err(ResourceError::HalvesDiffer(kind)),
        ),
        Some((_, TakeEvent::Taken(taken))) => TakeAction::Finish(Ok(taken)),
    }
}

/// Moves a listener out of the resource table, one step at a time, as
/// [`take_network_stream_resource`] does with a stream. A listener has no halves.
pub fn take_network_stream_listener_resource<S>(last: Option<(NetworkStreamType, TakeEvent<S>)>) -> (action:
    TakeAction<S>)
    requires
        last matches Some((_, event)) ==> !(event is HalvesDiffer),
    ensures
        action == next_listener_take(last),
        last matches Some((_, TakeEvent::Taken(taken))) ==> action == TakeAction::Finish(
            Ok::<S, ResourceError>(taken),
        ),
        action matches TakeAction::Finish(Ok(taken)) ==> (last matches Some(
            (_, TakeEvent::Taken(t)),
        ) && t == taken),
        action matches TakeAction::Finish(Err(ResourceError::ListenerInUse(kind))) ==> (last matches Some(
            (k, TakeEvent::InUse),
        ) && k == kind),
{
    match last {
        None => TakeAction::Try(NetworkStreamType::Tcp),
        Some((kind, TakeEvent::Absent)) => match kind {
            NetworkStreamType::Tcp => TakeAction::Try(NetworkStreamType::Tls),
            NetworkStreamType::Tls => TakeAction::Try(NetworkStreamType::Unix),
            NetworkStreamType::Unix => TakeAction::Finish(Err(ResourceError::BadResourceId)),
        },
        Some((_, TakeEvent::Taken(taken))) => TakeAction::Finish(Ok(taken)),
        Some((kind, _)) => TakeAction::Finish(Err(ResourceError::ListenerInUse(kind))),
    }
}

/// The kind of resource that a stream is put into the table as. Any stream can be put.
pub fn put_network_stream_resource<T, L, U>(stream: &NetworkStream<T, L, U>) -> (r: Result<
    NetworkStreamType,
    ResourceError,
>)
    ensures
        r == Ok::<NetworkStreamType, ResourceError>(stream.kind()),
{
    Ok(stream.stream())
}

/// What the table answers when a kind is tried, where `entry` is the kind of the resource
/// under the id and what becomes of taking it.
pub open spec fn table_answer<S>(
    entry: Option<(NetworkStreamType, TakeEvent<S>)>,
    tried: NetworkStreamType,
) -> TakeEvent<S> {
    match entry {
        Some((kind, event)) => if kind == tried {
            event
        } else {
            TakeEvent::Absent
        },
        None => TakeEvent::Absent,
    }
}

/// How many kinds remain to be tried.
pub open spec fn kinds_left<S>(last: Option<(NetworkStreamType, TakeEvent<S>)>) -> nat {
    match last {
        None => 3,
        Some((NetworkStreamType::Tcp, _)) => 2,
        Some((NetworkStreamType::Tls, _)) => 1,
        Some((NetworkStreamType::Unix, _)) => 0,
    }
}

/// The result of trying one kind after another against a table until the end.
pub open spec fn run_take<S>(
    entry: Option<(NetworkStreamType, TakeEvent<S>)>,
    last: Option<(NetworkStreamType, TakeEvent<S>)>,
    in_use: spec_fn(NetworkStreamType) -> ResourceError,
) -> Result<S, ResourceError>
    decreases kinds_left(last),
{
    match next_take(last, in_use) {
        TakeAction::Try(kind) => run_take(entry, Some((kind, table_answer(entry, kind))), in_use),
        TakeAction::Finish(result) => result,
    }
}

/// Whatever the resource table holds under an id, taking a stream or a listener ends after
/// at most three tries: with what the resource held where it is whole, with the matching
/// error where it is not, and with a bad id where there is none of any kind.
pub proof fn law_take_finds_what_is_there<S>(
    entry: Option<(NetworkStreamType, TakeEvent<S>)>,
    in_use: spec_fn(NetworkStreamType) -> ResourceError,
)
    ensures
        run_take(entry, None, in_use) == match entry {
            Some((_, TakeEvent::Taken(taken))) => Ok::<S, ResourceError>(taken),
            Some((kind, TakeEvent::InUse)) => Err(in_use(kind)),
            Some((kind, TakeEvent::HalvesDiffer)) => Err(ResourceError::HalvesDiffer(kind)),
            _ => Err(ResourceError::BadResourceId),
        },
{
    reveal_with_fuel(run_take, 5);
}

/// A stream that was put into the table as a resource of its kind, and that nothing else uses,
/// comes out as the same stream: the same connection, of the same kind.
pub proof fn law_take_gives_back_put<T, L, U>(stream: NetworkStream<T, L, U>)
    ensures
        run_take(
            Some((stream.kind(), TakeEvent::Taken(stream))),
            None,
            |kind: NetworkStreamType| ResourceError::StreamInUse(kind),
        ) == Ok::<NetworkStream<T, L, U>, ResourceError>(stream),
{
    law_take_finds_what_is_there(
        Some((stream.kind(), TakeEvent::Taken(stream))),
        |kind: NetworkStreamType| ResourceError::StreamInUse(kind),
    );
}

/// The result of taking a stream step by step, with the steps of
/// [`take_network_stream_resource`], from a table with this entry under the id.
pub open spec fn run_stream_take<S>(
    entry: Option<(NetworkStreamType, TakeEvent<S>)>,
    last: Option<(NetworkStreamType, TakeEvent<S>)>,
) -> Result<S, ResourceError>
    decreases kinds_left(last),
{
    match next_stream_take(last) {
        TakeAction::Try(kind) => run_stream_take(entry, Some((kind, table_answer(entry, kind)))),
        TakeAction::Finish(result) => result,
    }
}

/// The result of taking a listener step by step, with the steps of
/// [`take_network_stream_listener_resource`], from a table with this entry under the id.
pub open spec fn run_listener_take<S>(
    entry: Option<(NetworkStreamType, TakeEvent<S>)>,
    last: Option<(NetworkStreamType, TakeEvent<S>)>,
) -> Result<S, ResourceError>
    decreases kinds_left(last),
{
    match next_listener_take(last) {
        TakeAction::Try(kind) => run_listener_take(entry, Some((kind, table_answer(entry, kind)))),
        TakeAction::Finish(result) => result,
    }
}

/// A stream of any kind that is whole is what taking it ends with. One that is in use ends in
/// the error that says so, one whose halves differ likewise, and an id without a stream in a
/// bad id; none of these comes otherwise.
pub proof fn law_stream_take_ends<S>(kind: NetworkStreamType, taken: S)
    ensures
        run_stream_take(Some((kind, TakeEvent::Taken(taken))), None) == Ok::<S, ResourceError>(
            taken,
        ),
        run_stream_take(Some((kind, TakeEvent::<S>::InUse)), None) == Err::<S, ResourceError>(
            ResourceError::StreamInUse(kind),
        ),
        run_stream_take(Some((kind, TakeEvent::<S>::HalvesDiffer)), None) == Err::<
            S,
            ResourceError,
        >(ResourceError::HalvesDiffer(kind)),
        run_stream_take(Some((kind, TakeEvent::<S>::Absent)), None) == Err::<S, ResourceError>(
            ResourceError::BadResourceId,
        ),
        run_stream_take(None::<(NetworkStreamType, TakeEvent<S>)>, None) == Err::<
            S,
            ResourceError,
        >(ResourceError::BadResourceId),
{
    reveal_with_fuel(run_stream_take, 5);
}

/// A listener of any kind that nothing else uses is what taking it ends with. One that is in
/// use ends in the error that says so, and an id without a listener in a bad id; neither comes
/// otherwise.
pub proof fn law_listener_take_ends<S>(kind: NetworkStreamType, taken: S)
    ensures
        run_listener_take(Some((kind, TakeEvent::Taken(taken))), None) == Ok::<S, ResourceError>(
            taken,
        ),
        run_listener_take(Some((kind, TakeEvent::<S>::InUse)), None) == Err::<S, ResourceError>(
            ResourceError::ListenerInUse(kind),
        ),
        run_listener_take(Some((kind, TakeEvent::<S>::Absent)), None) == Err::<S, ResourceError>(
            ResourceError::BadResourceId,
        ),
        run_listener_take(None::<(NetworkStreamType, TakeEvent<S>)>, None) == Err::<
            S,
            ResourceError,
        >(ResourceError::BadResourceId),
{
    reveal_with_fuel(run_listener_take, 5);
}

/// A kind is tried only at the start or after another kind was absent, and what was taken is
/// never put aside: whatever was tried last, a resource that left the table ends the search.
pub proof fn law_search_goes_on_only_for_want<S>(last: Option<(NetworkStreamType, TakeEvent<S>)>)
    ensures
        next_stream_take(last) is Try ==> (last matches Some((_, event)) ==> event is Absent),
        next_listener_take(last) is Try ==> (last matches Some((_, event)) ==> event is Absent),
        next_stream_take(None::<(NetworkStreamType, TakeEvent<S>)>) == TakeAction::<S>::Try(
            NetworkStreamType::Tcp,
        ),
        next_listener_take(None::<(NetworkStreamType, TakeEvent<S>)>) == TakeAction::<S>::Try(
            NetworkStreamType::Tcp,
        ),
        last matches Some((_, TakeEvent::Taken(taken))) ==> {
            &&& next_stream_take(last) == TakeAction::Finish(Ok::<S, ResourceError>(taken))
            &&& next_listener_take(last) == TakeAction::Finish(Ok::<S, ResourceError>(taken))
        },
{
}

/// A stream is of the kind that it is made as, whatever it carries.
pub proof fn law_streams_say_what_they_are<T, L, U>(tcp: T, tls: L, sock: U)
    ensures
        NetworkStream::<T, L, U>::Tcp(tcp).kind() == NetworkStreamType::Tcp,
        NetworkStream::<T, L, U>::Tls(tls).kind() == NetworkStreamType::Tls,
        NetworkStream::<T, L, U>::Unix(sock).kind() == NetworkStreamType::Unix,
{
}

/// The address of a stream is the one that the operating system answered, and an error is
/// passed on.
pub proof fn law_stream_addresses(
    ip: SocketAddress,
    unix: UnixAddress,
    error: AddressError,
)
    ensures
        ({
            let failed = Err::<NetworkStreamListenAddress, AddressError>(error);
            let at_ip = Ok::<NetworkStreamListenAddress, AddressError>(
                NetworkStreamListenAddress::Ip(ip),
            );
            let at_unix = Ok::<NetworkStreamListenAddress, AddressError>(
                NetworkStreamListenAddress::Unix(unix),
            );
            &&& NetworkStream::<IpLocal, IpLocal, UnixLocal>::Tcp(Ok(ip)).address() == at_ip
            &&& NetworkStream::<IpLocal, IpLocal, UnixLocal>::Tls(Ok(ip)).address() == at_ip
            &&& NetworkStream::<IpLocal, IpLocal, UnixLocal>::Unix(Ok(unix)).address() == at_unix
            &&& NetworkStream::<IpLocal, IpLocal, UnixLocal>::Tcp(Err(error)).address() == failed
            &&& NetworkStream::<IpLocal, IpLocal, UnixLocal>::Tls(Err(error)).address() == failed
            &&& NetworkStream::<IpLocal, IpLocal, UnixLocal>::Unix(Err(error)).address() == failed
        }),
{
}

/// A listener is of the kind that it is made as; its address is the one that the operating
/// system answered, and an error is passed on.
pub proof fn law_listeners_say_what_they_are(
    ip: SocketAddress,
    unix: UnixAddress,
    local: IpLocal,
    unix_local: UnixLocal,
    error: AddressError,
)
    ensures
        NetworkStreamListener::Tcp(local).kind() == NetworkStreamType::Tcp,
        NetworkStreamListener::Tls(local).kind() == NetworkStreamType::Tls,
        NetworkStreamListener::Unix(unix_local).kind() == NetworkStreamType::Unix,
        ({
            let failed = Err::<NetworkStreamListenAddress, AddressError>(error);
            let at_ip = Ok::<NetworkStreamListenAddress, AddressError>(
                NetworkStreamListenAddress::Ip(ip),
            );
            let at_unix = Ok::<NetworkStreamListenAddress, AddressError>(
                NetworkStreamListenAddress::Unix(unix),
            );
            &&& NetworkStreamListener::Tcp(Ok(ip)).address() == at_ip
            &&& NetworkStreamListener::Tls(Ok(ip)).address() == at_ip
            &&& NetworkStreamListener::Unix(Ok(unix)).address() == at_unix
            &&& NetworkStreamListener::Tcp(Err(error)).address() == failed
            &&& NetworkStreamListener::Tls(Err(error)).address() == failed
            &&& NetworkStreamListener::Unix(Err(error)).address() == failed
        }),
{
}

/// A listener can be handed every connection of its own family and every failure: an IP
/// connection exactly where it is no Unix listener, a Unix connection exactly where it is one.
pub proof fn law_listeners_take_their_own<T, U, E>(
    listener: NetworkStreamListener,
    connection: T,
    unix_connection: U,
    reason: E,
)
    ensures
        listener.hands_out(Accepted::<T, U, E>::Ip(connection)) <==> !(listener is Unix),
        listener.hands_out(Accepted::<T, U, E>::Unix(unix_connection)) <==> listener is Unix,
        listener.hands_out(Accepted::<T, U, E>::Failed(reason)),
{
}

/// Every error about a resource says what is wrong with it, and with which kind of resource.
pub proof fn law_resource_errors_say_what_is_wrong(kind: NetworkStreamType)
    ensures
        ResourceError::BadResourceId.text() == "Bad resource ID"@,
        ResourceError::StreamInUse(kind).text() == match kind {
            NetworkStreamType::Tcp => "TCP stream is currently in use"@,
            NetworkStreamType::Tls => "TLS stream is currently in use"@,
            NetworkStreamType::Unix => "UNIX stream is currently in use"@,
        },
        ResourceError::ListenerInUse(kind).text() == match kind {
            NetworkStreamType::Tcp => "TCP socket listener is currently in use"@,
            NetworkStreamType::Tls => "TLS socket listener is currently in use"@,
            NetworkStreamType::Unix => "UNIX socket listener is currently in use"@,
        },
        ResourceError::HalvesDiffer(kind).text()
            == "tried to reunite halves that are not from the same socket"@,
{
}

} // verus!
