//! The host I/O bridge: what to ask of the host, and what its answers
//! mean.
//!
//! The host identifies streams, buffers and files by 32-bit numbers and
//! answers every operation with one signed number: negative for failure,
//! anything else for the payload. The functions here turn a caller's
//! wish into the request to hand to the host, and the host's number into
//! the caller's result. Performing the request is left to the embedding
//! program.

use std::io::SeekFrom;
use std::rc::Rc;
use vstd::prelude::*;
use crate::error::{host_ok, Io, IoResult};

verus! {

/// `std::io::SeekFrom`, made known with the three variants that std
/// gives it. Nothing is claimed of it but its shape.
#[verifier::external_type_specification]
pub struct ExSeekFrom(SeekFrom);

/// The status that every continuation reports back to the host.
pub const CALLBACK_DONE: i32 = 0;

/// A stream of the host, by its identifier.
pub struct TcpStreamImpl {
    handle: i32,
}

impl View for TcpStreamImpl {
    type V = i32;

    /// The host's identifier of the stream.
    closed spec fn view(&self) -> i32 {
        self.handle
    }
}

/// A shared owner of a host stream. All clones stand for the same
/// stream, which lives as long as the last of them.
#[derive(Clone)]
pub struct TcpStream {
    inner: Rc<TcpStreamImpl>,
}

impl View for TcpStream {
    type V = i32;

    /// The host's identifier of the stream.
    closed spec fn view(&self) -> i32 {
        self.inner.handle
    }
}

/// What to ask of the host for a write.
#[derive(Clone, Copy, Debug, PartialEq, Eq, Structural)]
pub struct WriteRequest {
    pub stream: i32,
    pub len: usize,
}

/// What a write comes to before the host is involved.
#[derive(Clone, Copy, Debug, PartialEq, Eq, Structural)]
pub enum WriteStep {
    /// Complete at once with this error; the host is not called.
    Rejected(Io),
    /// Hand this request to the host and wait for its completion.
    Submit(WriteRequest),
}

/// What to ask of the host for a read.
#[derive(Clone, Copy, Debug, PartialEq, Eq, Structural)]
pub struct ReadRequest {
    pub stream: i32,
    pub len: usize,
}

/// What to ask of the host to move a received buffer into memory of the
/// caller.
#[derive(Clone, Copy, Debug, PartialEq, Eq, Structural)]
pub struct TakeRequest {
    pub buffer: i32,
    pub capacity: usize,
}

/// What to ask of the host for a seek: the origin's number and the
/// offset from it.
#[derive(Clone, Copy, Debug, PartialEq, Eq, Structural)]
pub struct SeekRequest {
    pub origin: i32,
    pub offset: i64,
}

/// The host's number for each origin of a seek.
pub open spec fn seek_origin(from: SeekFrom) -> int {
    match from {
        SeekFrom::Start(_) => 0,
        SeekFrom::End(_) => 1,
        SeekFrom::Current(_) => 2,
    }
}

/// The offset that the host is handed. An offset from the start is
/// handed over as the signed number of the same 64 bits, so one up to
/// the greatest signed number stays as it is.
pub open spec fn seek_offset(from: SeekFrom) -> i64 {
    match from {
        SeekFrom::Start(offset) => offset as i64,
        SeekFrom::End(offset) => offset,
        SeekFrom::Current(offset) => offset,
    }
}

impl TcpStreamImpl {
    /// The host's identifier of the stream.
    pub fn handle(&self) -> (handle: i32)
        ensures
            handle == self@,
    {
        self.handle
    }

    /// Decides what a write of `data` comes to.
    ///
    /// Nothing can be written from an empty buffer: such a write fails at
    /// once, with the generic error, and the host is not called. Any
    /// other write is handed to the host whole.
    pub fn write(&self, data: &[u8]) -> (step: WriteStep)
        ensures
            data@.len() == 0 ==> step == WriteStep::Rejected(Io::Generic),
            data@.len() > 0 ==> step == WriteStep::Submit(
                WriteRequest { stream: self@, len: data@.len() as usize },
            ),
    {
        if data.len() == 0 {
            WriteStep::Rejected(Io::Generic)
        } else {
            WriteStep::Submit(WriteRequest { stream: self.handle, len: data.len() })
        }
    }

    /// What the host's answer to a write means: the number of bytes
    /// written, or the generic error for a negative answer.
    pub fn write_completion(answer: i32) -> (written: IoResult<i32>)
        ensures
            host_ok(answer as int) ==> written == Ok::<i32, Io>(answer),
            !host_ok(answer as int) ==> written == Err::<i32, Io>(Io::Generic),
    {
        if answer >= 0 {
            Ok(answer)
        } else {
            Err(Io::Generic)
        }
    }

    /// The request for a read of up to `len` bytes from this stream.
    pub fn read(&self, len: usize) -> (request: ReadRequest)
        ensures
            request == (ReadRequest { stream: self@, len }),
    {
        ReadRequest { stream: self.handle, len }
    }

    /// What the host's answer to a read means: the buffer that holds
    /// what was received, armed for its one disposal, or the generic
    /// error for a negative answer.
    pub fn read_completion(answer: i32) -> (received: IoResult<TcpBuffer>)
        ensures
            match received {
                Ok(buffer) => host_ok(answer as int) && buffer@ == (BufferView {
                    handle: answer,
                    armed: true,
                }),
                Err(e) => !host_ok(answer as int) && e == Io::Generic,
            },
    {
        if answer >= 0 {
            Ok(TcpBuffer { handle: answer, armed: true })
        } else {
            Err(Io::Generic)
        }
    }
}

impl TcpStream {
    /// The stream that all clones share.
    pub fn stream(&self) -> (stream: &TcpStreamImpl)
        ensures
            stream@ == self@,
    {
        &*self.inner
    }

    /// One more owner of the same stream.
    pub fn share(&self) -> (other: TcpStream)
        ensures
            other@ == self@,
    {
        TcpStream { inner: self.inner.clone() }
    }

    /// Gives up one owner's share. The last owner to do so gets the
    /// identifier of the stream, which is then to be destroyed on the
    /// host; every other owner gets nothing.
    pub fn retire(self) -> (last: Option<i32>)
        ensures
            last matches Some(handle) ==> handle == self@,
    {
        TcpStream::destroy_order(Rc::into_inner(self.inner))
    }

    /// What giving up a share comes to, from what the shared pointer
    /// handed back: the stream itself, for the last owner, is the order
    /// to destroy the stream of that identifier; nothing, for any other
    /// owner, is no order at all.
    pub fn destroy_order(released: Option<TcpStreamImpl>) -> (last: Option<i32>)
        ensures
            last == match released {
                Some(stream) => Some(stream@),
                None => None,
            },
    {
        match released {
            Some(stream) => Some(stream.handle),
            None => None,
        }
    }
}

/// What the host's answer to a connect means: the stream, or the
/// generic error for a negative answer.
pub fn connect_tcp_completion(answer: i32) -> (connected: IoResult<TcpStream>)
    ensures
        match connected {
            Ok(stream) => host_ok(answer as int) && stream@ == answer,
            Err(e) => !host_ok(answer as int) && e == Io::Generic,
        },
{
    if answer >= 0 {
        Ok(TcpStream { inner: Rc::new(TcpStreamImpl { handle: answer }) })
    } else {
        Err(Io::Generic)
    }
}

/// What one event of a listener means: the accepted stream, or nothing
/// for a negative number, which is a spurious event and surfaces no
/// stream.
pub fn listen_tcp_accept(answer: i32) -> (accepted: Option<TcpStream>)
    ensures
        match accepted {
            Some(stream) => host_ok(answer as int) && stream@ == answer,
            None => !host_ok(answer as int),
        },
{
    if answer >= 0 {
        Some(TcpStream { inner: Rc::new(TcpStreamImpl { handle: answer }) })
    } else {
        None
    }
}

/// A received buffer as contracts see it.
pub ghost struct BufferView {
    /// The host's identifier of the buffer.
    pub handle: i32,
    /// Whether the buffer still awaits its one disposal.
    pub armed: bool,
}

/// A buffer that the host holds for the caller.
///
/// It is disposed of once, in one of two ways: its contents are taken,
/// or it is released unread. Whichever comes first disarms the buffer,
/// and nothing that comes after reaches the host.
pub struct TcpBuffer {
    handle: i32,
    armed: bool,
}

impl View for TcpBuffer {
    type V = BufferView;

    closed spec fn view(&self) -> BufferView {
        BufferView { handle: self.handle, armed: self.armed }
    }
}

/// The number of bytes that a take yields: all that the buffer holds, or
/// as many as the destination has room for.
pub open spec fn taken_len(real_len: int, capacity: int) -> int {
    if real_len <= capacity {
        real_len
    } else {
        capacity
    }
}

/// A way to dispose of a buffer.
pub ghost enum Disposal {
    /// Take the contents into a destination with room for so many bytes.
    Take(usize),
    /// Release the buffer unread.
    Release,
}

/// What reaches the host when a buffer is disposed of.
pub ghost enum BufferCall {
    Take(TakeRequest),
    Release(i32),
}

/// One attempt to dispose of a buffer: the buffer after it, and what
/// reaches the host. Only an armed buffer reaches the host.
pub open spec fn dispose(buffer: BufferView, how: Disposal) -> (BufferView, Option<BufferCall>) {
    (
        BufferView { handle: buffer.handle, armed: false },
        if buffer.armed {
            Some(
                match how {
                    Disposal::Take(capacity) => BufferCall::Take(
                        TakeRequest { buffer: buffer.handle, capacity },
                    ),
                    Disposal::Release => BufferCall::Release(buffer.handle),
                },
            )
        } else {
            None
        },
    )
}

/// All that reaches the host when these attempts are made in turn.
pub open spec fn host_calls(buffer: BufferView, attempts: Seq<Disposal>) -> Seq<BufferCall>
    decreases attempts.len(),
{
    if attempts.len() == 0 {
        Seq::empty()
    } else {
        let (after, call) = dispose(buffer, attempts.first());
        let rest = host_calls(after, attempts.drop_first());
        match call {
            Some(call) => seq![call] + rest,
            None => rest,
        }
    }
}

/// A buffer is disposed of exactly once. Of any attempts made in turn on
/// an armed buffer, the first reaches the host and no other does: the
/// contents are never taken twice, and a buffer that was taken is never
/// released. Nothing that is tried on a disarmed buffer reaches the host.
pub proof fn law_disposed_once(buffer: BufferView, attempts: Seq<Disposal>)
    ensures
        buffer.armed && attempts.len() > 0 ==> host_calls(buffer, attempts) == seq![
            dispose(buffer, attempts.first()).1->0,
        ],
        !buffer.armed || attempts.len() == 0 ==> host_calls(buffer, attempts)
            == Seq::<BufferCall>::empty(),
    decreases attempts.len(),
{
    if attempts.len() > 0 {
        let after = dispose(buffer, attempts.first()).0;
        law_disposed_once(after, attempts.drop_first());
        if buffer.armed {
            assert(host_calls(buffer, attempts) =~= seq![dispose(buffer, attempts.first()).1->0]);
        }
    }
}

impl TcpBuffer {
    /// Whether the buffer still awaits its one disposal.
    pub fn is_armed(&self) -> (armed: bool)
        ensures
            armed == self@.armed,
    {
        self.armed
    }

    /// Disposes of the buffer by taking its contents into a destination
    /// of `capacity` bytes.
    ///
    /// An armed buffer is disarmed and yields the request for the host.
    /// A buffer that was disposed of yields nothing and stays as it is.
    pub fn take(&mut self, capacity: usize) -> (request: Option<TakeRequest>)
        ensures
            final(self)@ == dispose(old(self)@, Disposal::Take(capacity)).0,
            match request {
                Some(request) => dispose(old(self)@, Disposal::Take(capacity)).1 == Some(
                    BufferCall::Take(request),
                ),
                None => dispose(old(self)@, Disposal::Take(capacity)).1 is None,
            },
    {
        if self.armed {
            self.armed = false;
            Some(TakeRequest { buffer: self.handle, capacity })
        } else {
            None
        }
    }

    /// Disposes of the buffer unread.
    ///
    /// An armed buffer is disarmed and yields the identifier to release
    /// on the host. A buffer that was disposed of yields nothing and
    /// stays as it is.
    pub fn release(&mut self) -> (buffer: Option<i32>)
        ensures
            final(self)@ == dispose(old(self)@, Disposal::Release).0,
            match buffer {
                Some(buffer) => dispose(old(self)@, Disposal::Release).1 == Some(
                    BufferCall::Release(buffer),
                ),
                None => dispose(old(self)@, Disposal::Release).1 is None,
            },
    {
        if self.armed {
            self.armed = false;
            Some(self.handle)
        } else {
            None
        }
    }

    /// The number of bytes that a take yields, from the length that the
    /// host reports for the buffer and the room in the destination.
    pub fn taken(real_len: usize, capacity: usize) -> (len: usize)
        ensures
            len == taken_len(real_len as int, capacity as int),
            len <= real_len,
            len <= capacity,
    {
        if real_len <= capacity {
            real_len
        } else {
            capacity
        }
    }
}

/// What the host's answer to opening a file means: the descriptor, or
/// the generic error for a negative answer.
pub fn file_open_completion(answer: i32) -> (opened: IoResult<i32>)
    ensures
        host_ok(answer as int) ==> opened == Ok::<i32, Io>(answer),
        !host_ok(answer as int) ==> opened == Err::<i32, Io>(Io::Generic),
{
    if answer >= 0 {
        Ok(answer)
    } else {
        Err(Io::Generic)
    }
}

/// What the host's answer to reading from a file means: the number of
/// bytes read, or the generic error for a negative answer.
pub fn file_read_completion(answer: i32) -> (read: IoResult<usize>)
    ensures
        host_ok(answer as int) ==> read == Ok::<usize, Io>(answer as usize),
        !host_ok(answer as int) ==> read == Err::<usize, Io>(Io::Generic),
{
    if answer >= 0 {
        Ok(answer as usize)
    } else {
        Err(Io::Generic)
    }
}

/// What the host's answer to writing to a file means: the number of
/// bytes written, or the generic error for a negative answer.
pub fn file_write_completion(answer: i32) -> (written: IoResult<usize>)
    ensures
        host_ok(answer as int) ==> written == Ok::<usize, Io>(answer as usize),
        !host_ok(answer as int) ==> written == Err::<usize, Io>(Io::Generic),
{
    if answer >= 0 {
        Ok(answer as usize)
    } else {
        Err(Io::Generic)
    }
}

/// What the host's answer to flushing a file means: success, or the
/// generic error for a negative answer.
pub fn file_flush_completion(answer: i32) -> (flushed: IoResult<()>)
    ensures
        host_ok(answer as int) <==> flushed is Ok,
        !host_ok(answer as int) ==> flushed == Err::<(), Io>(Io::Generic),
{
    if answer >= 0 {
        Ok(())
    } else {
        Err(Io::Generic)
    }
}

/// The request for a seek: the origin by the host's number for it, and
/// the offset from that origin.
pub fn file_seek_request(from: SeekFrom) -> (request: SeekRequest)
    ensures
        request.origin == seek_origin(from),
        request.offset == seek_offset(from),
        from matches SeekFrom::Start(offset) ==> offset <= i64::MAX ==> request.offset == offset,
{
    match from {
        SeekFrom::Start(offset) => SeekRequest {
            origin: 0,
            offset: #[verifier::truncate]
            (offset as i64),
        },
        SeekFrom::End(offset) => SeekRequest { origin: 1, offset },
        SeekFrom::Current(offset) => SeekRequest { origin: 2, offset },
    }
}

/// What the host's answer to a seek means: the new position, counted
/// from the start of the file, or the generic error for a negative
/// answer.
pub fn file_seek_completion(answer: i64) -> (position: IoResult<u64>)
    ensures
        host_ok(answer as int) ==> position == Ok::<u64, Io>(answer as u64),
        !host_ok(answer as int) ==> position == Err::<u64, Io>(Io::Generic),
{
    if answer >= 0 {
        Ok(answer as u64)
    } else {
        Err(Io::Generic)
    }
}

} // verus!
