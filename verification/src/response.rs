use crate::addr::SocketAddr;
use std::sync::Arc;
use vstd::prelude::*;
use webrtc_util::conn::Conn;

verus! {

/// The way back to the peer that sent a request.
pub struct DtlsResponse<C: ?Sized = dyn Conn + Send + Sync> {
    pub conn: Arc<C>,
    pub remote_addr: SocketAddr,
}

impl<C: ?Sized> DtlsResponse<C> {
    /// Returns what answering with `response` is to send, and the connection to send it on.
    /// The send belongs in a task of its own, so that it does not block the handler of requests,
    /// and its outcome is dropped.
    pub fn reply(&self, response: Vec<u8>) -> (job: (Arc<C>, Vec<u8>))
        ensures
            job.0 == self.conn,
            job.1 == response,
    {
        (self.conn.clone(), response)
    }

    /// Returns the address of the peer.
    pub fn address(&self) -> (addr: SocketAddr)
        ensures
            addr == self.remote_addr,
    {
        self.remote_addr
    }
}

} // verus!
