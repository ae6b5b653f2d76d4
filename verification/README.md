# coap_dtls

A CoAP transport over DTLS, split into what it decides and what it does.

`src/` holds the decisions, verified with [Verus](https://github.com/verus-lang/verus): how a client
sets up a connection, how a server accepts connections, which received packets become requests, and
how a reply finds its way back. None of it does I/O. Each step says what to do next, and takes the
outcome of doing it.

- `addr`: socket addresses as plain values.
- `error`: the errors of the transport.
- `connection`: `DtlsConnection::try_new` starts with binding a socket, goes on to connect it, and
  ends with a handshake. A connection that was set up reports what is read and written.
- `listen`: an accepted connection starts a session; a failure to accept ends the listener.
- `serve`: a session receives requests and hands them on until it cannot.
- `response`: the way back to the sender of a request.

`app/` performs the steps with `tokio`, `webrtc-dtls` and `webrtc-util`.

The functions named `law_..` state what holds over whole runs.
