//! ØMQ (ZeroMQ) sockets driven by `tokio` reactors: the framing logic of a
//! socket transport, which turns the outcome of each non-blocking read or
//! write into the answer a `Stream` or a `Sink` gives.
pub mod stream;
