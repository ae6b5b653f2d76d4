use crate::addr::SocketAddr;
use crate::response::DtlsResponse;
use std::sync::Arc;
use vstd::prelude::*;

verus! {

/// The size of the buffer that a request is received into, and so the largest request.
pub const VECTOR_LENGTH: usize = 1600;

/// One accepted connection and the peer at its other end.
pub struct Session<C: ?Sized> {
    pub conn: Arc<C>,
    pub remote_addr: SocketAddr,
}

/// A session that is to receive its next request into [`Receiving::buffer`].
pub struct Receiving<C: ?Sized> {
    session: Session<C>,
    buf: Vec<u8>,
}

/// A session that is handing a request on.
pub struct Forwarding<C: ?Sized> {
    session: Session<C>,
}

/// What a session does next.
pub enum ConnStep<C: ?Sized> {
    /// Receive into the buffer.
    Recv(Receiving<C>),
    /// Hand on a request together with the way back to its sender.
    Forward(Vec<u8>, Arc<DtlsResponse<C>>, Forwarding<C>),
    /// End the session.
    Stop,
}

/// The model of a [`ConnStep`].
pub enum StepView<C: ?Sized> {
    Recv { session: Session<C>, buffer: Seq<u8> },
    Forward { request: Seq<u8>, response: DtlsResponse<C>, session: Session<C> },
    Stop,
}

impl<C: ?Sized> Session<C> {
    /// The way back to the peer.
    pub open spec fn response(self) -> DtlsResponse<C> {
        DtlsResponse { conn: self.conn, remote_addr: self.remote_addr }
    }
}

impl<C: ?Sized> Receiving<C> {
    /// Says that the buffer has the size that every request is received with.
    pub closed spec fn well_formed(&self) -> bool {
        self.buf@.len() == VECTOR_LENGTH
    }

    pub closed spec fn session(&self) -> Session<C> {
        self.session
    }

    /// What the buffer holds.
    pub closed spec fn contents(&self) -> Seq<u8> {
        self.buf@
    }
}

impl<C: ?Sized> Forwarding<C> {
    pub closed spec fn session(&self) -> Session<C> {
        self.session
    }
}

impl<C: ?Sized> ConnStep<C> {
    /// Says that a session that goes on to receive has a buffer of the right size.
    pub open spec fn well_formed(&self) -> bool {
        self matches ConnStep::Recv(receiving) ==> receiving.well_formed()
    }
}

impl<C: ?Sized> View for ConnStep<C> {
    type V = StepView<C>;

    open spec fn view(&self) -> StepView<C> {
        match *self {
            ConnStep::Recv(receiving) => StepView::Recv {
                session: receiving.session(),
                buffer: receiving.contents(),
            },
            ConnStep::Forward(request, response, forwarding) => StepView::Forward {
                request: request@,
                response: *response,
                session: forwarding.session(),
            },
            ConnStep::Stop => StepView::Stop,
        }
    }
}

/// The contents of a buffer that nothing was received into yet.
pub open spec fn blank() -> Seq<u8> {
    Seq::new(VECTOR_LENGTH as nat, |i: int| 0u8)
}

/// Says that a receive came out with a request: something was received, and no more than the
/// buffer holds.
pub open spec fn is_request<E>(rx: Result<usize, E>) -> bool {
    rx matches Ok(count) && 0 < count <= VECTOR_LENGTH
}

/// What follows a receive that left `filled` in the buffer and came out as `rx`: the received
/// part of the buffer is handed on, or the session ends.
pub open spec fn after_recv<C: ?Sized, E>(
    session: Session<C>,
    filled: Seq<u8>,
    rx: Result<usize, E>,
) -> StepView<C> {
    if is_request(rx) {
        StepView::Forward {
            request: filled.take(rx->Ok_0 as int),
            response: session.response(),
            session,
        }
    } else {
        StepView::Stop
    }
}

/// What follows an attempt to hand a request on: the session receives again, into a new buffer,
/// or ends.
pub open spec fn after_forward<C: ?Sized, S>(
    session: Session<C>,
    sent: Result<(), S>,
) -> StepView<C> {
    match sent {
        Ok(_) => StepView::Recv { session, buffer: blank() },
        Err(_) => StepView::Stop,
    }
}

impl<C: ?Sized> Session<C> {
    /// Lets the session receive into a new buffer.
    fn receive(self) -> (receiving: Receiving<C>)
        ensures
            receiving.well_formed(),
            receiving.session() == self,
            receiving.contents() == blank(),
    {
        let buf: Vec<u8> = vec![0u8; VECTOR_LENGTH];
        assert(buf@ =~= blank());
        Receiving { session: self, buf }
    }
}

/// Starts a session on `conn`, which receives requests and hands them on until a receive gives
/// no request or a request cannot be handed on.
pub fn spawn_webrtc_conn<C: ?Sized>(conn: Arc<C>, remote_addr: SocketAddr) -> (receiving:
    Receiving<C>)
    ensures
        receiving.well_formed(),
        receiving.session() == (Session { conn, remote_addr }),
        receiving.contents() == blank(),
        receiving.contents().len() == 1600,
        forall|i: int| 0 <= i < 1600 ==> #[trigger] receiving.contents()[i] == 0,
{
    Session { conn, remote_addr }.receive()
}

impl<C: ?Sized> Receiving<C> {
    /// Returns the connection to receive on.
    pub fn conn(&self) -> (conn: &Arc<C>)
        ensures
            *conn == self.session().conn,
    {
        &self.session.conn
    }

    /// Returns the buffer to receive into. Whoever fills it keeps its length, and with it the
    /// session well formed.
    pub fn buffer(&mut self) -> (buffer: &mut [u8])
        requires
            old(self).well_formed(),
        ensures
            buffer@ == old(self).contents(),
            buffer@.len() == VECTOR_LENGTH,
            buffer@.len() == 1600,
            final(self).contents() == final(buffer)@,
            final(self).session() == old(self).session(),
            final(buffer)@.len() == VECTOR_LENGTH ==> final(self).well_formed(),
    {
        self.buf.as_mut_slice()
    }

    /// Takes the outcome of the receive, whose request stands at the start of the buffer.
    pub fn received<E>(self, rx: Result<usize, E>) -> (step: ConnStep<C>)
        requires
            self.well_formed(),
        ensures
            step.well_formed(),
            step@ == after_recv(self.session(), self.contents(), rx),
            match step {
                ConnStep::Forward(request, response, forwarding) => {
                    &&& rx matches Ok(count) && 1 <= count <= 1600 && request@
                        == self.contents().take(count as int)
                    &&& response.conn == self.session().conn
                    &&& response.remote_addr == self.session().remote_addr
                    &&& forwarding.session() == self.session()
                },
                ConnStep::Stop => rx matches Ok(count) ==> count == 0 || count > 1600,
                ConnStep::Recv(_) => false,
            },
    {
        match rx {
            Ok(count) => {
                if count == 0 || count > VECTOR_LENGTH {
                    return ConnStep::Stop;
                }
                let mut request = self.buf;
                request.truncate(count);
                assert(request@ =~= self.contents().take(count as int));
                let response = Arc::new(
                    DtlsResponse {
                        conn: self.session.conn.clone(),
                        remote_addr: self.session.remote_addr,
                    },
                );
                ConnStep::Forward(request, response, Forwarding { session: self.session })
            },
            Err(_) => ConnStep::Stop,
        }
    }
}

impl<C: ?Sized> Forwarding<C> {
    /// Takes the outcome of handing the request on.
    pub fn forwarded<S>(self, sent: Result<(), S>) -> (step: ConnStep<C>)
        ensures
            step.well_formed(),
            step@ == after_forward(self.session(), sent),
            match step {
                ConnStep::Recv(receiving) => {
                    &&& sent is Ok
                    &&& receiving.session() == self.session()
                    &&& receiving.contents().len() == 1600
                    &&& forall|i: int| 0 <= i < 1600 ==> #[trigger] receiving.contents()[i] == 0
                },
                ConnStep::Stop => sent is Err,
                ConnStep::Forward(..) => false,
            },
    {
        match sent {
            Ok(_) => ConnStep::Recv(self.session.receive()),
            Err(_) => ConnStep::Stop,
        }
    }
}

/// A receive gives a request exactly where it succeeds with 1 to 1600 bytes.
pub proof fn law_is_request<E>(rx: Result<usize, E>)
    ensures
        is_request(rx) <==> (rx matches Ok(count) && 1 <= count <= 1600),
{
}

/// A buffer has 1600 bytes, and all of them are zero before anything is received.
pub proof fn law_blank(i: int)
    ensures
        VECTOR_LENGTH == 1600,
        blank().len() == 1600,
        0 <= i < 1600 ==> blank()[i] == 0,
{
}

/// A receive of 1 to 1600 bytes hands on just as many bytes, those at the start of the buffer, and
/// the way back over the connection of the session to its peer. Any other count, and a receive that
/// fails, ends the session.
pub proof fn law_receive<C: ?Sized, E>(session: Session<C>, filled: Seq<u8>, rx: Result<usize, E>)
    requires
        filled.len() == 1600,
    ensures
        match after_recv(session, filled, rx) {
            StepView::Forward { request, response, session: forwarding } => {
                &&& rx matches Ok(count) && 1 <= count <= 1600 && request.len() == count
                &&& forall|i: int| 0 <= i < request.len() ==> #[trigger] request[i] == filled[i]
                &&& response.conn == session.conn
                &&& response.remote_addr == session.remote_addr
                &&& forwarding == session
            },
            StepView::Stop => rx matches Ok(count) ==> count == 0 || count > 1600,
            StepView::Recv { .. } => false,
        },
{
}

/// A session goes on, with the same connection and peer and a blank buffer, exactly where the
/// request was handed on.
pub proof fn law_forward<C: ?Sized, S>(session: Session<C>, sent: Result<(), S>)
    ensures
        match after_forward(session, sent) {
            StepView::Recv { session: receiving, buffer } => {
                &&& sent is Ok
                &&& receiving.conn == session.conn
                &&& receiving.remote_addr == session.remote_addr
                &&& buffer.len() == 1600
                &&& forall|i: int| 0 <= i < 1600 ==> #[trigger] buffer[i] == 0
            },
            StepView::Stop => sent is Err,
            StepView::Forward { .. } => false,
        },
{
}

/// The model of a step tells the steps apart, and has the request, the way back and the session of
/// the step.
pub proof fn law_step_view<C: ?Sized>(step: ConnStep<C>)
    ensures
        match step {
            ConnStep::Recv(receiving) => step@ == (StepView::Recv {
                session: receiving.session(),
                buffer: receiving.contents(),
            }),
            ConnStep::Forward(request, response, forwarding) => step@ == (StepView::Forward {
                request: request@,
                response: *response,
                session: forwarding.session(),
            }),
            ConnStep::Stop => step@ == StepView::<C>::Stop,
        },
{
}

/// The way back of a session has the connection and the peer of the session.
pub proof fn law_response<C: ?Sized>(session: Session<C>)
    ensures
        session.response().conn == session.conn,
        session.response().remote_addr == session.remote_addr,
{
}

/// What a session meets in one turn: a receive that leaves `filled` in the buffer and comes out
/// as `rx`, and, where that gave a request, the attempt to hand it on, which comes out as `sent`.
pub struct Round<E, S> {
    pub filled: Seq<u8>,
    pub rx: Result<usize, E>,
    pub sent: Result<(), S>,
}

/// The requests that a session tries to hand on over the given rounds, each with its way back, in
/// order. Only the last of them can be one that was refused.
pub open spec fn requests<C: ?Sized, E, S>(session: Session<C>, rounds: Seq<Round<E, S>>) -> Seq<
    (Seq<u8>, DtlsResponse<C>),
>
    decreases rounds.len(),
{
    if rounds.len() == 0 {
        Seq::empty()
    } else {
        match after_recv(session, rounds[0].filled, rounds[0].rx) {
            StepView::Forward { request, response, session: forwarding } => seq![
                (request, response),
            ] + match after_forward(forwarding, rounds[0].sent) {
                StepView::Recv { session: receiving, .. } => requests(
                    receiving,
                    rounds.drop_first(),
                ),
                _ => Seq::empty(),
            },
            _ => Seq::empty(),
        }
    }
}

/// The requests that a session hands on over the given rounds without being refused, each with its
/// way back, in order.
pub open spec fn delivered<C: ?Sized, E, S>(session: Session<C>, rounds: Seq<Round<E, S>>) -> Seq<
    (Seq<u8>, DtlsResponse<C>),
>
    decreases rounds.len(),
{
    if rounds.len() == 0 {
        Seq::empty()
    } else {
        match after_recv(session, rounds[0].filled, rounds[0].rx) {
            StepView::Forward { request, response, session: forwarding } => match after_forward(
                forwarding,
                rounds[0].sent,
            ) {
                StepView::Recv { session: receiving, .. } => seq![(request, response)] + delivered(
                    receiving,
                    rounds.drop_first(),
                ),
                _ => Seq::empty(),
            },
            _ => Seq::empty(),
        }
    }
}

/// Says that a session ends within the given rounds.
pub open spec fn ends<C: ?Sized, E, S>(session: Session<C>, rounds: Seq<Round<E, S>>) -> bool
    decreases rounds.len(),
{
    rounds.len() > 0 && match after_recv(session, rounds[0].filled, rounds[0].rx) {
        StepView::Forward { session: forwarding, .. } => match after_forward(
            forwarding,
            rounds[0].sent,
        ) {
            StepView::Recv { session: receiving, .. } => ends(receiving, rounds.drop_first()),
            _ => true,
        },
        _ => true,
    }
}

/// Each round gives one request to hand on, in order, up to the first receive that gives none or
/// the first request that is refused, which is the last one tried. A request is the received part of the buffer, and its way
/// back leads over the connection of the session to the peer of the session.
pub proof fn law_requests<C: ?Sized, E, S>(session: Session<C>, rounds: Seq<Round<E, S>>)
    ensures
        ({
            let handed = requests(session, rounds);
            let n = handed.len() as int;
            &&& n <= rounds.len()
            &&& forall|i: int| 0 <= i < n ==> is_request((#[trigger] rounds[i]).rx)
            &&& forall|i: int|
                0 <= i < n ==> #[trigger] handed[i] == (
                    rounds[i].filled.take(rounds[i].rx->Ok_0 as int),
                    session.response(),
                )
            &&& forall|i: int|
                0 <= i < n ==> ((#[trigger] rounds[i]).rx matches Ok(count) && 1 <= count <= 1600)
            &&& forall|i: int| 0 <= i < n - 1 ==> (#[trigger] rounds[i]).sent is Ok
            &&& n < rounds.len() ==> !is_request(rounds[n].rx) || (n > 0 && rounds[n - 1].sent
                is Err)
        }),
    decreases rounds.len(),
{
    let handed = requests(session, rounds);
    if rounds.len() > 0 && is_request(rounds[0].rx) && rounds[0].sent is Ok {
        let rest = rounds.drop_first();
        let later = requests(session, rest);
        law_requests(session, rest);
        assert forall|i: int| 0 <= i < handed.len() implies is_request(
            (#[trigger] rounds[i]).rx,
        ) by {
            if i > 0 {
                assert(rounds[i] == rest[i - 1]);
            }
        }
        assert forall|i: int| 0 <= i < handed.len() implies #[trigger] handed[i] == (
            rounds[i].filled.take(rounds[i].rx->Ok_0 as int),
            session.response(),
        ) by {
            if i > 0 {
                assert(handed[i] == later[i - 1]);
                assert(rounds[i] == rest[i - 1]);
            }
        }
        assert forall|i: int| 0 <= i < handed.len() - 1 implies (#[trigger] rounds[i]).sent is Ok by {
            if i > 0 {
                assert(rounds[i] == rest[i - 1]);
            }
        }
        let n = handed.len() as int;
        if n < rounds.len() {
            assert(rounds[n] == rest[n - 1]);
            if n > 1 {
                assert(rounds[n - 1] == rest[n - 2]);
            }
        }
    }
}

/// The requests that are handed on without being refused are those of all rounds before the first
/// one that gives no request or is refused. They are the first of those that are tried, and at
/// most one more is tried.
pub proof fn law_delivered<C: ?Sized, E, S>(session: Session<C>, rounds: Seq<Round<E, S>>)
    ensures
        ({
            let taken = delivered(session, rounds);
            let n = taken.len() as int;
            &&& n <= rounds.len()
            &&& forall|i: int|
                0 <= i < n ==> is_request((#[trigger] rounds[i]).rx) && rounds[i].sent is Ok
            &&& n < rounds.len() ==> !is_request(rounds[n].rx) || rounds[n].sent is Err
            &&& ends(session, rounds) <==> n < rounds.len()
            &&& n <= requests(session, rounds).len() <= n + 1
            &&& taken == requests(session, rounds).take(n)
        }),
    decreases rounds.len(),
{
    let taken = delivered(session, rounds);
    let n = taken.len() as int;
    if rounds.len() > 0 && is_request(rounds[0].rx) && rounds[0].sent is Ok {
        let rest = rounds.drop_first();
        let later = requests(session, rest);
        law_delivered(session, rest);
        assert forall|i: int| 0 <= i < n implies is_request((#[trigger] rounds[i]).rx)
            && rounds[i].sent is Ok by {
            if i > 0 {
                assert(rounds[i] == rest[i - 1]);
            }
        }
        if n < rounds.len() {
            assert(rounds[n] == rest[n - 1]);
        }
        assert(taken =~= requests(session, rounds).take(n)) by {
            assert forall|i: int| 0 < i < n implies #[trigger] taken[i] == requests(
                session,
                rounds,
            )[i] by {
                assert(taken[i] == delivered(session, rest)[i - 1]);
                assert(later.take(n - 1)[i - 1] == later[i - 1]);
            }
        }
    } else {
        assert(taken =~= requests(session, rounds).take(n));
    }
}

/// No request is empty, and none is larger than the buffer that it was received into.
pub proof fn law_request_size<C: ?Sized, E, S>(session: Session<C>, rounds: Seq<Round<E, S>>, i: int)
    requires
        forall|k: int| 0 <= k < rounds.len() ==> (#[trigger] rounds[k]).filled.len() == VECTOR_LENGTH,
        0 <= i < requests(session, rounds).len(),
    ensures
        1 <= requests(session, rounds)[i].0.len() <= 1600,
{
    law_requests(session, rounds);
    let handed = requests(session, rounds);
    assert(handed[i].0 == rounds[i].filled.take(rounds[i].rx->Ok_0 as int));
}

/// A session that receives 1 to 1600 bytes in every round, and hands each request on, never ends,
/// and hands on as many requests as there are rounds, each byte for byte what was received.
pub proof fn law_nothing_is_lost<C: ?Sized, E, S>(
    session: Session<C>,
    rounds: Seq<Round<E, S>>,
    k: int,
    i: int,
)
    requires
        forall|r: int|
            0 <= r < rounds.len() ==> (#[trigger] rounds[r]).filled.len() == 1600
                && rounds[r].sent is Ok && (rounds[r].rx matches Ok(count) && 1 <= count <= 1600),
    ensures
        !ends(session, rounds),
        delivered(session, rounds).len() == rounds.len(),
        0 <= k < rounds.len() ==> delivered(session, rounds)[k].0.len() == rounds[k].rx->Ok_0,
        0 <= k < rounds.len() && 0 <= i < rounds[k].rx->Ok_0 ==> delivered(session, rounds)[k].0[i]
            == rounds[k].filled[i],
        0 <= k < rounds.len() ==> delivered(session, rounds)[k].1.conn == session.conn
            && delivered(session, rounds)[k].1.remote_addr == session.remote_addr,
{
    law_delivered(session, rounds);
    law_requests(session, rounds);
    let n = delivered(session, rounds).len() as int;
    if n < rounds.len() {
        assert(rounds[n].sent is Ok);
    }
    if 0 <= k < rounds.len() {
        assert(delivered(session, rounds)[k] == requests(session, rounds)[k]);
        assert(rounds[k].filled.len() == 1600);
    }
}

/// A session ends if and only if a receive gives no request or a request cannot be handed on.
pub proof fn law_ends<C: ?Sized, E, S>(session: Session<C>, rounds: Seq<Round<E, S>>)
    ensures
        ends(session, rounds) <==> exists|i: int|
            0 <= i < rounds.len() && (!is_request((#[trigger] rounds[i]).rx) || rounds[i].sent
                is Err),
    decreases rounds.len(),
{
    if rounds.len() > 0 {
        let rest = rounds.drop_first();
        if is_request(rounds[0].rx) && rounds[0].sent is Ok {
            law_ends(session, rest);
            if ends(session, rest) {
                let k = choose|k: int|
                    0 <= k < rest.len() && (!is_request((#[trigger] rest[k]).rx) || rest[k].sent
                        is Err);
                assert(rounds[k + 1] == rest[k]);
            }
            if exists|i: int|
                0 <= i < rounds.len() && (!is_request((#[trigger] rounds[i]).rx) || rounds[i].sent
                    is Err) {
                let i = choose|i: int|
                    0 <= i < rounds.len() && (!is_request((#[trigger] rounds[i]).rx)
                        || rounds[i].sent is Err);
                assert(rest[i - 1] == rounds[i]);
            }
        } else {
            assert(!is_request(rounds[0].rx) || rounds[0].sent is Err);
        }
    }
}

/// What comes after the end of a session changes nothing.
pub proof fn law_end_is_final<C: ?Sized, E, S>(
    session: Session<C>,
    rounds: Seq<Round<E, S>>,
    more: Seq<Round<E, S>>,
)
    requires
        ends(session, rounds),
    ensures
        ends(session, rounds + more),
        requests(session, rounds + more) == requests(session, rounds),
        delivered(session, rounds + more) == delivered(session, rounds),
    decreases rounds.len(),
{
    assert((rounds + more)[0] == rounds[0]);
    if is_request(rounds[0].rx) && rounds[0].sent is Ok {
        assert((rounds + more).drop_first() =~= rounds.drop_first() + more);
        law_end_is_final(session, rounds.drop_first(), more);
    }
}

/// A session that has not ended hands on the requests of later rounds after those of earlier
/// ones, as a session that starts with the later rounds would.
pub proof fn law_requests_append<C: ?Sized, E, S>(
    session: Session<C>,
    rounds: Seq<Round<E, S>>,
    more: Seq<Round<E, S>>,
)
    requires
        !ends(session, rounds),
    ensures
        requests(session, rounds).len() == rounds.len(),
        requests(session, rounds + more) == requests(session, rounds) + requests(session, more),
        delivered(session, rounds + more) == delivered(session, rounds) + delivered(session, more),
    decreases rounds.len(),
{
    if rounds.len() == 0 {
        assert(rounds + more =~= more);
        assert(requests(session, rounds) + requests(session, more) =~= requests(session, more));
        assert(delivered(session, rounds) + delivered(session, more) =~= delivered(session, more));
    } else {
        assert((rounds + more)[0] == rounds[0]);
        assert((rounds + more).drop_first() =~= rounds.drop_first() + more);
        law_requests_append(session, rounds.drop_first(), more);
        assert(requests(session, rounds + more) =~= requests(session, rounds) + requests(
            session,
            more,
        ));
        assert(delivered(session, rounds + more) =~= delivered(session, rounds) + delivered(
            session,
            more,
        ));
    }
}

} // verus!
