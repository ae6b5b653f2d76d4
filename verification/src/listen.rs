use crate::addr::SocketAddr;
use crate::error::{CauseView, Error, ErrorKind, ErrorView};
use crate::serve::{self, spawn_webrtc_conn, Receiving, Session};
use std::sync::Arc;
use vstd::prelude::*;

verus! {

/// What follows an attempt to accept a connection: a session on it, or an error that says no
/// more than that the attempt failed.
pub open spec fn after_accept<C: ?Sized, E>(
    outcome: Result<(Arc<C>, SocketAddr), E>,
) -> Result<Session<C>, ErrorView<E>> {
    match outcome {
        Ok((conn, remote_addr)) => Ok(Session { conn, remote_addr }),
        Err(_) => Err(ErrorView::text(ErrorKind::Other, "could not accept"@)),
    }
}

/// Takes the outcome of accepting a connection. A connection starts a session, and the listener
/// goes on to accept; an error ends the listener with the error returned.
pub fn accepted<C: ?Sized, E>(outcome: Result<(Arc<C>, SocketAddr), E>) -> (result: Result<
    Receiving<C>,
    Error<E>,
>)
    ensures
        match after_accept(outcome) {
            Ok(session) => result matches Ok(receiving) && receiving.well_formed()
                && receiving.session() == session && receiving.contents() == serve::blank(),
            Err(e) => result is Err && result->Err_0@ == e,
        },
        outcome matches Ok((conn, remote_addr)) ==> (result matches Ok(receiving)
            && receiving.session().conn == conn && receiving.session().remote_addr == remote_addr
            && receiving.contents().len() == 1600),
        outcome is Err ==> (result matches Err(error) && error.says(
            ErrorKind::Other,
            "could not accept"@,
        )),
{
    match outcome {
        Ok((conn, remote_addr)) => Ok(spawn_webrtc_conn(conn, remote_addr)),
        Err(_) => Err(Error::text(ErrorKind::Other, "could not accept")),
    }
}

/// Every accepted connection starts a session, on that connection and with that peer; an attempt
/// that fails leaves a fixed error.
pub proof fn law_accept<C: ?Sized, E>(outcome: Result<(Arc<C>, SocketAddr), E>)
    ensures
        outcome matches Ok((conn, remote_addr)) ==> (after_accept(outcome) matches Ok(session)
            && session.conn == conn && session.remote_addr == remote_addr),
        outcome is Err ==> (after_accept(outcome) matches Err(error) && error.kind
            == ErrorKind::Other && error.cause == CauseView::<E>::Message("could not accept"@)),
{
}

/// The sessions that a listener starts over the given attempts to accept, in order.
pub open spec fn sessions<C: ?Sized, E>(
    attempts: Seq<Result<(Arc<C>, SocketAddr), E>>,
) -> Seq<Session<C>>
    decreases attempts.len(),
{
    if attempts.len() == 0 {
        Seq::empty()
    } else {
        match after_accept(attempts[0]) {
            Ok(session) => seq![session] + sessions(attempts.drop_first()),
            Err(_) => Seq::empty(),
        }
    }
}

/// The error that a listener ends with over the given attempts to accept, if it ends.
pub open spec fn listen_error<C: ?Sized, E>(
    attempts: Seq<Result<(Arc<C>, SocketAddr), E>>,
) -> Option<ErrorView<E>>
    decreases attempts.len(),
{
    if attempts.len() == 0 {
        None
    } else {
        match after_accept(attempts[0]) {
            Ok(_) => listen_error(attempts.drop_first()),
            Err(e) => Some(e),
        }
    }
}

/// A listener starts one session for each accepted connection, in order, on that connection and
/// with that peer. It goes on until an attempt to accept fails, and then ends with an error.
pub proof fn law_listen<C: ?Sized, E>(attempts: Seq<Result<(Arc<C>, SocketAddr), E>>)
    ensures
        ({
            let started = sessions(attempts);
            let n = started.len() as int;
            &&& n <= attempts.len()
            &&& forall|i: int|
                #![trigger started[i]]
                0 <= i < n ==> attempts[i] == Ok::<(Arc<C>, SocketAddr), E>(
                    (started[i].conn, started[i].remote_addr),
                )
            &&& n == attempts.len() ==> listen_error(attempts) is None
            &&& n < attempts.len() ==> attempts[n] is Err && listen_error(attempts) == Some(
                ErrorView::<E>::text(ErrorKind::Other, "could not accept"@),
            )
        }),
    decreases attempts.len(),
{
    if attempts.len() > 0 && attempts[0] is Ok {
        let rest = attempts.drop_first();
        law_listen(rest);
        let started = sessions(attempts);
        assert forall|i: int| #![trigger started[i]] 0 <= i < started.len() implies attempts[i]
            == Ok::<(Arc<C>, SocketAddr), E>((started[i].conn, started[i].remote_addr)) by {
            if i > 0 {
                assert(started[i] == sessions(rest)[i - 1]);
                assert(attempts[i] == rest[i - 1]);
            }
        }
    }
}

/// The way back of a request leads over the connection that a listener accepted, to the peer that
/// it was accepted from.
pub proof fn law_reply_reaches_sender<C: ?Sized, E, F, S>(
    attempts: Seq<Result<(Arc<C>, SocketAddr), E>>,
    k: int,
    rounds: Seq<serve::Round<F, S>>,
    i: int,
)
    requires
        0 <= k < sessions(attempts).len(),
        0 <= i < serve::requests(sessions(attempts)[k], rounds).len(),
    ensures
        ({
            let response = serve::requests(sessions(attempts)[k], rounds)[i].1;
            attempts[k] == Ok::<(Arc<C>, SocketAddr), E>((response.conn, response.remote_addr))
        }),
{
    law_listen(attempts);
    serve::law_requests(sessions(attempts)[k], rounds);
}

} // verus!
