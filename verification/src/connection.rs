use crate::addr::SocketAddr;
use crate::error::{CauseView, Error, ErrorKind, ErrorView};
use std::marker::PhantomData;
use std::sync::Arc;
use std::time::Duration;
use vstd::prelude::*;
use webrtc_dtls::config::Config;
use webrtc_dtls::conn::DTLSConn;

verus! {

/// How long a handshake may take, in seconds.
pub const HANDSHAKE_TIMEOUT_SECS: u64 = 30;

/// Whom to connect to, and how.
pub struct DtlsConfig<K = Config> {
    pub config: K,
    pub dest_addr: SocketAddr,
}

/// A DTLS connection to one peer.
pub struct DtlsConnection<C = DTLSConn> {
    pub conn: C,
    pub peer_addr: SocketAddr,
}

/// A connection in the making: next, bind a socket to [`Binding::local_addr`].
pub struct Binding<K, C> {
    dtls_config: DtlsConfig<K>,
    marker: PhantomData<C>,
}

/// A connection in the making: next, connect [`Connecting::socket`] to [`Connecting::dest_addr`].
pub struct Connecting<K, C, S> {
    socket: Arc<S>,
    dtls_config: DtlsConfig<K>,
    marker: PhantomData<C>,
}

/// What a handshake is to be made with.
pub struct Handshake<K, S, T> {
    pub socket: Arc<S>,
    pub config: K,
    pub is_client: bool,
    pub initial_state: Option<T>,
    pub timeout_secs: u64,
}

/// A connection in the making: a [`Handshake`] is under way.
pub struct Handshaking<C> {
    peer_addr: SocketAddr,
    marker: PhantomData<C>,
}

/// What a read is to be made with.
pub struct ReadJob<'a, C> {
    pub conn: &'a C,
    pub buffer: &'a mut [u8],
    pub timeout: Option<Duration>,
}

/// What a write is to be made with.
pub struct WriteJob<'a, C> {
    pub conn: &'a C,
    pub bytes: &'a [u8],
    pub timeout: Option<Duration>,
}

impl<K, C> Binding<K, C> {
    pub closed spec fn config(&self) -> DtlsConfig<K> {
        self.dtls_config
    }
}

impl<K, C, S> Connecting<K, C, S> {
    pub closed spec fn bound_socket(&self) -> Arc<S> {
        self.socket
    }

    pub closed spec fn config(&self) -> DtlsConfig<K> {
        self.dtls_config
    }
}

impl<C> Handshaking<C> {
    pub closed spec fn peer(&self) -> SocketAddr {
        self.peer_addr
    }
}

/// What follows an attempt to bind a socket: the socket and the unchanged configuration, or an
/// error that wraps the failure.
pub open spec fn after_bind<K, S, E>(
    dtls_config: DtlsConfig<K>,
    bound: Result<S, E>,
) -> Result<(Arc<S>, DtlsConfig<K>), ErrorView<E>> {
    match bound {
        Ok(socket) => Ok((Arc::new(socket), dtls_config)),
        Err(e) => Err(ErrorView::wrapping(e)),
    }
}

/// What follows an attempt to connect the socket: the handshake to make and the address of the
/// peer, or an error that says no more than that the address is taken.
pub open spec fn after_connect<K, S, E, T>(
    socket: Arc<S>,
    dtls_config: DtlsConfig<K>,
    connected: Result<(), E>,
) -> Result<(Handshake<K, S, T>, SocketAddr), ErrorView<E>> {
    match connected {
        Ok(_) => Ok(
            (
                Handshake {
                    socket,
                    config: dtls_config.config,
                    is_client: true,
                    initial_state: None,
                    timeout_secs: HANDSHAKE_TIMEOUT_SECS,
                },
                dtls_config.dest_addr,
            ),
        ),
        Err(_) => Err(ErrorView::text(ErrorKind::AddrNotAvailable, "address is in use"@)),
    }
}

/// What follows a handshake, the outer `Err` of which says that the time was up: the connection,
/// or an error that tells a handshake without an answer from one that failed.
pub open spec fn after_handshake<C, E, T>(
    peer_addr: SocketAddr,
    finished: Result<Result<C, E>, T>,
) -> Result<DtlsConnection<C>, ErrorView<E>> {
    match finished {
        Ok(Ok(conn)) => Ok(DtlsConnection { conn, peer_addr }),
        Ok(Err(e)) => Err(ErrorView::wrapping(e)),
        Err(_) => Err(
            ErrorView::text(ErrorKind::TimedOut, "Received no response on DTLS handshake"@),
        ),
    }
}

/// What receiving on a connection to `peer_addr` reports, where the read came out as `read`.
pub open spec fn after_read<E>(peer_addr: SocketAddr, read: Result<usize, E>) -> Result<
    (usize, SocketAddr),
    ErrorView<E>,
> {
    match read {
        Ok(count) => Ok((count, peer_addr)),
        Err(e) => Err(ErrorView::wrapping(e)),
    }
}

/// What sending on a connection reports, where the write came out as `written`.
pub open spec fn after_write<E>(written: Result<usize, E>) -> Result<usize, ErrorView<E>> {
    match written {
        Ok(count) => Ok(count),
        Err(e) => Err(ErrorView::wrapping(e)),
    }
}

impl<C> DtlsConnection<C> {
    /// Starts to set up a connection as a client. The steps that follow are those of
    /// [`Binding`], [`Connecting`] and [`Handshaking`].
    pub fn try_new<K>(dtls_config: DtlsConfig<K>) -> (binding: Binding<K, C>)
        ensures
            binding.config() == dtls_config,
    {
        Binding { dtls_config, marker: PhantomData }
    }

    /// Returns the read that receiving into `buf` is to make: on the connection, into the whole of
    /// `buf`, with no time limit.
    pub fn read<'a>(&'a self, buf: &'a mut [u8]) -> (job: ReadJob<'a, C>)
        ensures
            *job.conn == self.conn,
            job.buffer@ == old(buf)@,
            final(job.buffer)@ == final(buf)@,
            job.timeout is None,
    {
        ReadJob { conn: &self.conn, buffer: buf, timeout: None }
    }

    /// Returns the write that sending `buf` is to make: on the connection, of the whole of `buf`,
    /// with no time limit.
    pub fn write<'a>(&'a self, buf: &'a [u8]) -> (job: WriteJob<'a, C>)
        ensures
            *job.conn == self.conn,
            job.bytes@ == buf@,
            job.timeout is None,
    {
        WriteJob { conn: &self.conn, bytes: buf, timeout: None }
    }

    /// Takes the outcome of the [`ReadJob`], and reports the number of bytes that were read
    /// with the address that they came from, which is always that of the peer.
    pub fn received<E>(&self, read: Result<usize, E>) -> (result: Result<
        (usize, SocketAddr),
        Error<E>,
    >)
        ensures
            match after_read(self.peer_addr, read) {
                Ok(from) => result == Ok::<(usize, SocketAddr), Error<E>>(from),
                Err(e) => result is Err && result->Err_0@ == e,
            },
            read matches Ok(count) ==> result == Ok::<(usize, SocketAddr), Error<E>>(
                (count, self.peer_addr),
            ),
            read matches Err(e) ==> (result matches Err(error) && error.wraps(e)),
    {
        match read {
            Ok(count) => Ok((count, self.peer_addr)),
            Err(e) => Err(Error::wrapping(e)),
        }
    }

    /// Takes the outcome of the [`WriteJob`], and reports the number of bytes that were
    /// written.
    pub fn sent<E>(&self, written: Result<usize, E>) -> (result: Result<usize, Error<E>>)
        ensures
            match written {
                Ok(count) => result == Ok::<usize, Error<E>>(count),
                Err(e) => result is Err && result->Err_0@ == ErrorView::wrapping(e),
            },
            match after_write(written) {
                Ok(count) => result == Ok::<usize, Error<E>>(count),
                Err(e) => result is Err && result->Err_0@ == e,
            },
            written matches Err(e) ==> (result matches Err(error) && error.wraps(e)),
    {
        match written {
            Ok(count) => Ok(count),
            Err(e) => Err(Error::wrapping(e)),
        }
    }
}

impl<K, C> Binding<K, C> {
    /// Returns the address to bind the socket to.
    pub fn local_addr(&self) -> (addr: SocketAddr)
        ensures
            addr.is_any_v4(),
            addr matches SocketAddr::V4(v4) && v4.octets@ == seq![0u8, 0u8, 0u8, 0u8] && v4.port
                == 0,
    {
        SocketAddr::any_v4()
    }

    /// Takes the outcome of binding the socket.
    pub fn bound<S, E>(self, bound: Result<S, E>) -> (result: Result<
        Connecting<K, C, S>,
        Error<E>,
    >)
        ensures
            match after_bind(self.config(), bound) {
                Ok((socket, dtls_config)) => result matches Ok(connecting)
                    && connecting.bound_socket() == socket && connecting.config() == dtls_config,
                Err(e) => result is Err && result->Err_0@ == e,
            },
            bound matches Ok(socket) ==> (result matches Ok(connecting)
                && *connecting.bound_socket() == socket && connecting.config() == self.config()),
            bound matches Err(e) ==> (result matches Err(error) && error.wraps(e)),
    {
        match bound {
            Ok(socket) => Ok(
                Connecting {
                    socket: Arc::new(socket),
                    dtls_config: self.dtls_config,
                    marker: PhantomData,
                },
            ),
            Err(e) => Err(Error::wrapping(e)),
        }
    }
}

impl<K, C, S> Connecting<K, C, S> {
    /// Returns the socket to connect.
    pub fn socket(&self) -> (socket: &Arc<S>)
        ensures
            *socket == self.bound_socket(),
    {
        &self.socket
    }

    /// Returns the address to connect the socket to.
    pub fn dest_addr(&self) -> (addr: SocketAddr)
        ensures
            addr == self.config().dest_addr,
    {
        self.dtls_config.dest_addr
    }

    /// Takes the outcome of connecting the socket.
    pub fn connected<E, T>(self, connected: Result<(), E>) -> (result: Result<
        (Handshake<K, S, T>, Handshaking<C>),
        Error<E>,
    >)
        ensures
            match after_connect::<K, S, E, T>(self.bound_socket(), self.config(), connected) {
                Ok((handshake, peer_addr)) => result matches Ok((made, handshaking)) && made
                    == handshake && handshaking.peer() == peer_addr,
                Err(e) => result is Err && result->Err_0@ == e,
            },
            connected is Ok ==> (result matches Ok((handshake, handshaking)) && handshake.socket
                == self.bound_socket() && handshake.config == self.config().config
                && handshake.is_client && handshake.initial_state is None && handshake.timeout_secs
                == 30 && handshaking.peer() == self.config().dest_addr),
            connected is Err ==> (result matches Err(error) && error.says(
                ErrorKind::AddrNotAvailable,
                "address is in use"@,
            )),
    {
        match connected {
            Ok(_) => {
                let peer_addr = self.dtls_config.dest_addr;
                let handshake = Handshake {
                    socket: self.socket,
                    config: self.dtls_config.config,
                    is_client: true,
                    initial_state: None,
                    timeout_secs: HANDSHAKE_TIMEOUT_SECS,
                };
                Ok((handshake, Handshaking { peer_addr, marker: PhantomData }))
            },
            Err(_) => Err(Error::text(ErrorKind::AddrNotAvailable, "address is in use")),
        }
    }
}

impl<C> Handshaking<C> {
    /// Takes the outcome of the handshake; the outer `Err` says that the time was up.
    pub fn finished<E, T>(self, finished: Result<Result<C, E>, T>) -> (result: Result<
        DtlsConnection<C>,
        Error<E>,
    >)
        ensures
            match after_handshake(self.peer(), finished) {
                Ok(connection) => result == Ok::<DtlsConnection<C>, Error<E>>(connection),
                Err(e) => result is Err && result->Err_0@ == e,
            },
            finished matches Ok(Ok(conn)) ==> (result matches Ok(connection) && connection.conn
                == conn && connection.peer_addr == self.peer()),
            finished matches Ok(Err(e)) ==> (result matches Err(error) && error.wraps(e)),
            finished is Err ==> (result matches Err(error) && error.says(
                ErrorKind::TimedOut,
                "Received no response on DTLS handshake"@,
            )),
    {
        match finished {
            Ok(Ok(conn)) => Ok(DtlsConnection { conn, peer_addr: self.peer_addr }),
            Ok(Err(e)) => Err(Error::wrapping(e)),
            Err(_) => Err(
                Error::text(ErrorKind::TimedOut, "Received no response on DTLS handshake"),
            ),
        }
    }
}

/// Why no connection was set up, by the step that failed.
pub enum Refusal<B, N, H> {
    Bind(ErrorView<B>),
    Connect(ErrorView<N>),
    Handshake(ErrorView<H>),
}

/// How setting up a connection ends, given the outcome of each step. The outcome of a step that
/// is not reached plays no part.
pub open spec fn try_new_result<K, S, C, B, N, H, T>(
    dtls_config: DtlsConfig<K>,
    bound: Result<S, B>,
    connected: Result<(), N>,
    finished: Result<Result<C, H>, T>,
) -> Result<DtlsConnection<C>, Refusal<B, N, H>> {
    match after_bind(dtls_config, bound) {
        Err(e) => Err(Refusal::Bind(e)),
        Ok((socket, kept)) => match after_connect::<K, S, N, ()>(socket, kept, connected) {
            Err(e) => Err(Refusal::Connect(e)),
            Ok((_, peer_addr)) => match after_handshake(peer_addr, finished) {
                Err(e) => Err(Refusal::Handshake(e)),
                Ok(connection) => Ok(connection),
            },
        },
    }
}

/// A bound socket is kept, and the configuration with it, so that the socket is connected to the
/// configured destination; a socket that could not be bound leaves only the failure, wrapped.
pub proof fn law_bind<K, S, E>(dtls_config: DtlsConfig<K>, bound: Result<S, E>)
    ensures
        bound matches Ok(socket) ==> (after_bind(dtls_config, bound) matches Ok((held, kept))
            && *held == socket && kept.dest_addr == dtls_config.dest_addr && kept.config
            == dtls_config.config),
        bound matches Err(e) ==> (after_bind(dtls_config, bound) matches Err(error) && error.kind
            == ErrorKind::Other && error.cause == CauseView::Source(e)),
{
}

/// A connected socket goes to the handshake with the configuration, and the peer is the address
/// that the socket was connected to; a socket that could not be connected leaves a fixed error.
pub proof fn law_connect<K, S, E, T>(
    socket: Arc<S>,
    dtls_config: DtlsConfig<K>,
    connected: Result<(), E>,
)
    ensures
        connected is Ok ==> (after_connect::<K, S, E, T>(socket, dtls_config, connected) matches Ok(
            (handshake, peer_addr),
        ) && handshake.socket == socket && handshake.config == dtls_config.config
            && handshake.is_client && handshake.initial_state is None && handshake.timeout_secs
            == 30 && peer_addr == dtls_config.dest_addr),
        connected is Err ==> (after_connect::<K, S, E, T>(
            socket,
            dtls_config,
            connected,
        ) matches Err(error) && error.kind == ErrorKind::AddrNotAvailable && error.cause
            == CauseView::<E>::Message("address is in use"@)),
{
}

/// A handshake that succeeds in time gives its connection, with the peer that it was made with;
/// one that fails leaves the failure, wrapped, and one that takes too long a fixed error.
pub proof fn law_handshake<C, E, T>(peer_addr: SocketAddr, finished: Result<Result<C, E>, T>)
    ensures
        finished matches Ok(Ok(conn)) ==> (after_handshake(peer_addr, finished) matches Ok(
            connection,
        ) && connection.conn == conn && connection.peer_addr == peer_addr),
        finished matches Ok(Err(e)) ==> (after_handshake(peer_addr, finished) matches Err(error)
            && error.kind == ErrorKind::Other && error.cause == CauseView::Source(e)),
        finished is Err ==> (after_handshake(peer_addr, finished) matches Err(error) && error.kind
            == ErrorKind::TimedOut && error.cause == CauseView::<E>::Message(
            "Received no response on DTLS handshake"@,
        )),
{
}

/// A read that succeeds is reported as a success, with its count and the peer, whatever the count;
/// the report is an error if and only if the read is one, and then wraps it.
pub proof fn law_read<E>(peer_addr: SocketAddr, read: Result<usize, E>)
    ensures
        after_read(peer_addr, read) is Ok <==> read is Ok,
        read matches Ok(count) ==> after_read(peer_addr, read)->Ok_0.0 == count,
        read is Ok ==> after_read(peer_addr, read)->Ok_0.1 == peer_addr,
        read matches Err(e) ==> (after_read(peer_addr, read) matches Err(error) && error.kind
            == ErrorKind::Other && error.cause == CauseView::Source(e)),
{
}

/// A write that succeeds is reported as a success, with its count, whatever the count; the report
/// is an error if and only if the write is one, and then wraps it.
pub proof fn law_write<E>(written: Result<usize, E>)
    ensures
        after_write(written) is Ok <==> written is Ok,
        written matches Ok(count) ==> after_write(written)->Ok_0 == count,
        written matches Err(e) ==> (after_write(written) matches Err(error) && error.kind
            == ErrorKind::Other && error.cause == CauseView::Source(e)),
{
}

/// The address that the socket is connected to is the configured destination, and it is also the
/// peer of the connection that comes of it.
pub proof fn law_connects_to_destination<K, S, C, B, N, H, T>(
    dtls_config: DtlsConfig<K>,
    bound: Result<S, B>,
    connected: Result<(), N>,
    finished: Result<Result<C, H>, T>,
)
    requires
        bound is Ok,
    ensures
        after_bind(dtls_config, bound) matches Ok((_, kept)) && kept.dest_addr
            == dtls_config.dest_addr && (try_new_result(
            dtls_config,
            bound,
            connected,
            finished,
        ) matches Ok(connection) ==> connection.peer_addr == kept.dest_addr),
{
}

/// A connection is set up if and only if the socket was bound and connected and the handshake
/// succeeded in time. It is then the connection that the handshake gave, and its peer is the
/// configured destination. Otherwise the first step that failed gives the error.
pub proof fn law_try_new<K, S, C, B, N, H, T>(
    dtls_config: DtlsConfig<K>,
    bound: Result<S, B>,
    connected: Result<(), N>,
    finished: Result<Result<C, H>, T>,
)
    ensures
        ({
            let result = try_new_result::<K, S, C, B, N, H, T>(
                dtls_config,
                bound,
                connected,
                finished,
            );
            &&& result is Ok <==> bound is Ok && connected is Ok && finished is Ok
                && finished->Ok_0 is Ok
            &&& result matches Ok(connection) ==> connection.conn == finished->Ok_0->Ok_0
                && connection.peer_addr == dtls_config.dest_addr
            &&& bound matches Err(e) ==> result == Err::<DtlsConnection<C>, _>(
                Refusal::<B, N, H>::Bind(ErrorView::wrapping(e)),
            )
            &&& bound is Ok && connected is Err ==> result == Err::<DtlsConnection<C>, _>(
                Refusal::<B, N, H>::Connect(
                    ErrorView::text(ErrorKind::AddrNotAvailable, "address is in use"@),
                ),
            )
            &&& bound is Ok && connected is Ok && finished is Err ==> result == Err::<
                DtlsConnection<C>,
                _,
            >(
                Refusal::<B, N, H>::Handshake(
                    ErrorView::text(
                        ErrorKind::TimedOut,
                        "Received no response on DTLS handshake"@,
                    ),
                ),
            )
            &&& bound is Ok && connected is Ok && finished is Ok ==> (finished->Ok_0 matches Err(e)
                ==> result == Err::<DtlsConnection<C>, _>(
                Refusal::<B, N, H>::Handshake(ErrorView::wrapping(e)),
            ))
        }),
{
}

/// The handshake is made as a client, on the socket that was bound, with the configuration that
/// was given, from no earlier state, and within the time limit.
pub proof fn law_handshake_input<K, S, B, N, I>(
    dtls_config: DtlsConfig<K>,
    socket: S,
    connected: Result<(), N>,
)
    requires
        connected is Ok,
    ensures
        after_bind::<K, S, B>(dtls_config, Ok(socket)) matches Ok((held, kept)) && (after_connect::<
            K,
            S,
            N,
            I,
        >(held, kept, connected) matches Ok((handshake, _)) && handshake == Handshake::<K, S, I> {
            socket: Arc::new(socket),
            config: dtls_config.config,
            is_client: true,
            initial_state: None,
            timeout_secs: 30,
        }),
{
}

/// Whatever is received on a connection that was set up comes from the configured destination.
pub proof fn law_received_from_destination<K, S, C, B, N, H, T, E>(
    dtls_config: DtlsConfig<K>,
    bound: Result<S, B>,
    connected: Result<(), N>,
    finished: Result<Result<C, H>, T>,
    read: Result<usize, E>,
)
    requires
        try_new_result::<K, S, C, B, N, H, T>(dtls_config, bound, connected, finished) is Ok,
    ensures
        ({
            let connection = try_new_result::<K, S, C, B, N, H, T>(
                dtls_config,
                bound,
                connected,
                finished,
            )->Ok_0;
            &&& after_read(connection.peer_addr, read) matches Ok((count, from)) ==> from
                == dtls_config.dest_addr && read == Ok::<usize, E>(count)
            &&& read matches Ok(count) ==> after_read(connection.peer_addr, read) == Ok::<
                (usize, SocketAddr),
                ErrorView<E>,
            >((count, dtls_config.dest_addr))
        }),
{
}

} // verus!
