//! Streams for ØMQ sockets: the framed transport over a socket.
use vstd::prelude::*;

verus! {

/// `std::io::Error`, the error of the socket's reads and writes; opaque here.
#[verifier::external_type_specification]
#[verifier::external_body]
pub struct ExIoError(std::io::Error);

/// Size in bytes of the buffer that one poll of a framed socket reads into.
pub const READ_BUFFER_SIZE: usize = 1024;

/// Whether a value is available yet.
#[derive(Debug, Clone, PartialEq, Eq)]
pub enum Async<T> {
    /// The value is ready.
    Ready(T),
    /// The value is not ready; the task is woken when it may be.
    NotReady,
}

/// What a sink did with an item that was offered to it.
#[derive(Debug, Clone, PartialEq, Eq)]
pub enum AsyncSink<T> {
    /// The item was taken.
    Ready,
    /// The sink could not take the item now and hands it back.
    NotReady(T),
}

/// What one non-blocking read or write on a socket came to.
#[derive(Debug, Clone, PartialEq, Eq)]
pub enum Transfer<E> {
    /// The call went through and moved this many bytes.
    Complete(usize),
    /// The call would have blocked; nothing was moved.
    WouldBlock,
    /// The call failed with any other error.
    Failed(E),
}

/// What `start_send` answers, given what the write of the item came to.
pub open spec fn start_send_spec<E>(item: Vec<u8>, written: Transfer<E>) -> Result<AsyncSink<Vec<u8>>, E> {
    match written {
        Transfer::Complete(_) => Ok(AsyncSink::Ready),
        Transfer::WouldBlock => Ok(AsyncSink::NotReady(item)),
        Transfer::Failed(e) => Err(e),
    }
}

/// Whether `r` is what `poll` answers, given the buffer that was read into
/// and what the read came to: a frame holding the first bytes of the buffer,
/// as many as were read.
pub open spec fn poll_spec<E>(buf: Seq<u8>, read: Transfer<E>, r: Result<Async<Option<Vec<u8>>>, E>) -> bool {
    match read {
        Transfer::Complete(n) => r matches Ok(Async::Ready(Some(frame))) && frame@ == buf.take(n as int),
        Transfer::WouldBlock => r == Ok::<Async<Option<Vec<u8>>>, E>(Async::NotReady),
        Transfer::Failed(e) => r == Err::<Async<Option<Vec<u8>>>, E>(e),
    }
}

/// A read outcome that a buffer of `len` bytes can have: no more bytes read
/// than the buffer holds.
pub open spec fn read_fits<E>(read: Transfer<E>, len: nat) -> bool {
    read matches Transfer::Complete(n) ==> n <= len
}

/// The answer of a sink to an item, given what the write of the item's bytes
/// to the socket came to. A write that went through is taken as sending the
/// whole item, whatever number of bytes it reports; a write that would block
/// hands the item back unchanged; any other error is passed on.
pub fn start_send_result<E>(item: Vec<u8>, written: Transfer<E>) -> (r: Result<AsyncSink<Vec<u8>>, E>)
    ensures
        r == start_send_spec(item, written),
{
    match written {
        Transfer::Complete(_) => Ok(AsyncSink::Ready),
        Transfer::WouldBlock => Ok(AsyncSink::NotReady(item)),
        Transfer::Failed(e) => Err(e),
    }
}

/// The answer of a stream to a poll, given the buffer that was read into and
/// what the read came to. A read that went through yields a frame of the
/// bytes read, the empty frame included; a read that would block yields
/// `NotReady`; any other error is passed on. The stream never ends.
pub fn poll_result<E>(buf: Vec<u8>, read: Transfer<E>) -> (r: Result<Async<Option<Vec<u8>>>, E>)
    requires
        read_fits(read, buf@.len()),
    ensures
        poll_spec(buf@, read, r),
{
    match read {
        Transfer::Complete(n) => {
            let mut frame: Vec<u8> = Vec::new();
            let mut i: usize = 0;
            while i < n
                invariant
                    n <= buf@.len(),
                    i <= n,
                    frame@ == buf@.take(i as int),
                decreases n - i,
            {
                frame.push(buf[i]);
                i = i + 1;
                assert(frame@ =~= buf@.take(i as int));
            }
            Ok(Async::Ready(Some(frame)))
        },
        Transfer::WouldBlock => Ok(Async::NotReady),
        Transfer::Failed(e) => Err(e),
    }
}

/// Whether a socket error is of kind `std::io::ErrorKind::WouldBlock`: what
/// `std::io::Error::kind` returns for it, compared with that kind.
pub uninterp spec fn io_error_would_block(e: std::io::Error) -> bool;

/// Whether a socket error would block: calls `std::io::Error::kind` and
/// compares the kind with `std::io::ErrorKind::WouldBlock`. Claims that the
/// answer is `io_error_would_block` of the error.
#[verifier::external_body]
fn error_would_block(e: &std::io::Error) -> (b: bool)
    ensures
        b == io_error_would_block(*e),
{
    e.kind() == std::io::ErrorKind::WouldBlock
}

/// Sorts the outcome of a non-blocking read or write on the socket: a call
/// that went through is `Complete` with the same count, a failure that would
/// block is `WouldBlock`, and any other failure is the same error, `Failed`.
fn classify_io(outcome: std::io::Result<usize>) -> (t: Transfer<std::io::Error>)
    ensures
        outcome matches Ok(n) ==> t == Transfer::<std::io::Error>::Complete(n),
        outcome matches Err(e) ==> (io_error_would_block(e) ==> t is WouldBlock),
        outcome matches Err(e) ==> (!io_error_would_block(e) ==> t == Transfer::<std::io::Error>::Failed(e)),
{
    match outcome {
        Ok(n) => Transfer::Complete(n),
        Err(e) => {
            if error_would_block(&e) {
                Transfer::WouldBlock
            } else {
                Transfer::Failed(e)
            }
        },
    }
}

/// The answer of a sink to an item, given what writing the item's bytes to
/// the socket returned: `Ready` when the write went through; the item handed
/// back unchanged when the write would block; the same error when it failed
/// otherwise.
pub fn start_send_io(item: Vec<u8>, written: std::io::Result<usize>) -> (r: Result<AsyncSink<Vec<u8>>, std::io::Error>)
    ensures
        written is Ok ==> r == Ok::<AsyncSink<Vec<u8>>, std::io::Error>(AsyncSink::Ready),
        written matches Err(e) ==> (io_error_would_block(e)
            ==> r == Ok::<AsyncSink<Vec<u8>>, std::io::Error>(AsyncSink::NotReady(item))),
        written matches Err(e) ==> (!io_error_would_block(e)
            ==> r == Err::<AsyncSink<Vec<u8>>, std::io::Error>(e)),
{
    let t = classify_io(written);
    start_send_result(item, t)
}

/// The answer of a stream to a poll, given the buffer that was read into and
/// what the read returned: the frame of the bytes read when the read went
/// through; `NotReady` when the read would block; the same error when it
/// failed otherwise.
pub fn poll_io(buf: Vec<u8>, read: std::io::Result<usize>) -> (r: Result<Async<Option<Vec<u8>>>, std::io::Error>)
    requires
        read matches Ok(n) ==> n <= buf@.len(),
    ensures
        read matches Ok(n) ==> (r matches Ok(Async::Ready(Some(frame))) && frame@ == buf@.take(n as int)),
        read matches Err(e) ==> (io_error_would_block(e)
            ==> r == Ok::<Async<Option<Vec<u8>>>, std::io::Error>(Async::NotReady)),
        read matches Err(e) ==> (!io_error_would_block(e)
            ==> r == Err::<Async<Option<Vec<u8>>>, std::io::Error>(e)),
{
    let t = classify_io(read);
    poll_result(buf, t)
}

/// A fresh, zero-filled buffer for one read of a framed socket.
pub fn new_read_buffer() -> (buf: Vec<u8>)
    ensures
        buf@.len() == READ_BUFFER_SIZE,
        forall|i: int| 0 <= i < buf@.len() ==> buf@[i] == 0u8,
{
    let mut buf: Vec<u8> = Vec::new();
    let mut i: usize = 0;
    while i < READ_BUFFER_SIZE
        invariant
            i <= READ_BUFFER_SIZE,
            buf@.len() == i,
            forall|j: int| 0 <= j < buf@.len() ==> buf@[j] == 0u8,
        decreases READ_BUFFER_SIZE - i,
    {
        buf.push(0u8);
        i = i + 1;
    }
    buf
}

/// An item that a sink refuses because the socket would block comes back
/// unchanged, and offering it again once a write goes through has it taken.
pub proof fn lemma_refused_item_is_taken_on_retry<E>(item: Vec<u8>, n: usize)
    ensures
        start_send_spec::<E>(item, Transfer::WouldBlock) == Ok::<AsyncSink<Vec<u8>>, E>(AsyncSink::NotReady(item)),
        start_send_spec::<E>(item, Transfer::Complete(n)) == Ok::<AsyncSink<Vec<u8>>, E>(AsyncSink::Ready),
{
}

/// The stream of frames never ends: whatever a read comes to, a poll never
/// answers `Ready(None)`.
pub proof fn lemma_stream_never_ends<E>(buf: Seq<u8>, read: Transfer<E>, r: Result<Async<Option<Vec<u8>>>, E>)
    requires
        read_fits(read, buf.len()),
        poll_spec(buf, read, r),
    ensures
        !(r matches Ok(Async::Ready(None))),
{
}

/// Every frame read into a fresh read buffer holds at most
/// `READ_BUFFER_SIZE` bytes, and is exactly the bytes that the read put at
/// the start of the buffer.
pub proof fn lemma_frame_fits_read_buffer<E>(buf: Seq<u8>, read: Transfer<E>, r: Result<Async<Option<Vec<u8>>>, E>)
    requires
        buf.len() == READ_BUFFER_SIZE,
        read_fits(read, buf.len()),
        poll_spec(buf, read, r),
    ensures
        r matches Ok(Async::Ready(Some(frame))) ==> {
            &&& frame@.len() <= READ_BUFFER_SIZE
            &&& read matches Transfer::Complete(n)
            &&& frame@.len() == n
            &&& forall|i: int| 0 <= i < frame@.len() ==> frame@[i] == buf[i]
        },
{
}

/// The sink and the stream read a socket's outcome alike: an outcome that
/// would block leaves both without error, and any other failure reaches both
/// callers as the same error.
pub proof fn lemma_sink_and_stream_agree_on_failures<E>(item: Vec<u8>, buf: Seq<u8>, e: E)
    ensures
        start_send_spec::<E>(item, Transfer::WouldBlock) is Ok,
        poll_spec::<E>(buf, Transfer::WouldBlock, Ok(Async::NotReady)),
        start_send_spec::<E>(item, Transfer::Failed(e)) == Err::<AsyncSink<Vec<u8>>, E>(e),
        poll_spec::<E>(buf, Transfer::Failed(e), Err(e)),
{
}

/// A read that went through always yields a frame, whatever the size of the
/// buffer and however few bytes were read: never `NotReady`, never the end of
/// the stream, never an error. The frame holds exactly as many bytes as were
/// read, and they are the buffer's first bytes, in order.
pub proof fn lemma_completed_read_yields_its_bytes<E>(buf: Seq<u8>, n: usize, r: Result<Async<Option<Vec<u8>>>, E>)
    requires
        n <= buf.len(),
        poll_spec(buf, Transfer::Complete(n), r),
    ensures
        r is Ok,
        r->Ok_0 is Ready,
        r->Ok_0->Ready_0 is Some,
        r->Ok_0->Ready_0->Some_0@.len() == n,
        forall|i: int| 0 <= i < n ==> #[trigger] r->Ok_0->Ready_0->Some_0@[i] == buf[i],
{
}

/// A read that would block leaves the stream not ready, and nothing else:
/// no frame and no error, whatever the buffer.
pub proof fn lemma_blocked_read_is_not_ready<E>(buf: Seq<u8>, r: Result<Async<Option<Vec<u8>>>, E>)
    requires
        poll_spec(buf, Transfer::<E>::WouldBlock, r),
    ensures
        r is Ok,
        r->Ok_0 is NotReady,
{
}

/// A read that failed otherwise passes its error on, the very same error,
/// whatever the buffer: it is neither swallowed nor taken as not ready.
pub proof fn lemma_failed_read_passes_its_error_on<E>(buf: Seq<u8>, e: E, r: Result<Async<Option<Vec<u8>>>, E>)
    requires
        poll_spec(buf, Transfer::Failed(e), r),
    ensures
        r is Err,
        r->Err_0 == e,
{
}

/// What a sink answers covers every outcome of the write, each way apart: a
/// write that went through, whatever the count, has the item taken; a write
/// that would block hands back the very item; a write that failed otherwise
/// passes on the very error.
pub proof fn lemma_sink_answers<E>(item: Vec<u8>, n: usize, e: E)
    ensures
        start_send_spec::<E>(item, Transfer::Complete(n)) is Ok,
        start_send_spec::<E>(item, Transfer::Complete(n))->Ok_0 is Ready,
        start_send_spec::<E>(item, Transfer::WouldBlock) is Ok,
        start_send_spec::<E>(item, Transfer::WouldBlock)->Ok_0 is NotReady,
        start_send_spec::<E>(item, Transfer::WouldBlock)->Ok_0->NotReady_0 == item,
        start_send_spec::<E>(item, Transfer::Failed(e)) is Err,
        start_send_spec::<E>(item, Transfer::Failed(e))->Err_0 == e,
{
}

/// A custom transport type for `Socket`.
pub struct SocketFramed<T> {
    socket: T,
}

impl<T> SocketFramed<T> {
    /// The socket that the transport reads from and writes to.
    pub closed spec fn socket(self) -> T {
        self.socket
    }

    pub fn new(socket: T) -> (framed: Self)
        ensures
            framed.socket() == socket,
    {
        SocketFramed { socket: socket }
    }

    /// A reference to the underlying socket.
    pub fn get_ref(&self) -> (r: &T)
        ensures
            *r == self.socket(),
    {
        &self.socket
    }

    /// A mutable reference to the underlying socket, through which reads and
    /// writes are made.
    pub fn get_mut(&mut self) -> (r: &mut T)
        ensures
            *r == old(self).socket(),
            final(self).socket() == *final(r),
    {
        &mut self.socket
    }

    /// Whether the writes made so far are complete: always, since each write
    /// goes to the socket at once. The transport is left as it was.
    pub fn poll_complete(&mut self) -> (r: Result<Async<()>, std::io::Error>)
        ensures
            r == Ok::<Async<()>, std::io::Error>(Async::Ready(())),
            final(self).socket() == old(self).socket(),
    {
        Ok(Async::Ready(()))
    }
}

} // verus!
