//! The sending half of a stream.
use bytes::Bytes;
use vstd::prelude::*;
use vstd::string::*;

use crate::bridge;
use crate::bridge::{BridgeHandle, SignalRef};
use crate::buffer;
use crate::command::BridgeCommand;
use crate::error::{ConnectionError, ConnectionErrorView};
use crate::text;
use crate::text::join;
use crate::types::{Poll, StreamId, VarInt};

verus! {

// ---------------------------------------------------------------------------
// Errors
// ---------------------------------------------------------------------------

/// Errors from writing to a [`SendStream`].
#[derive(Debug, PartialEq, Eq)]
pub enum WriteError {
    /// The peer is no longer reading from this stream.
    Stopped(VarInt),
    /// The connection was lost.
    ConnectionLost(ConnectionError),
    /// The stream has already been finished or reset.
    ClosedStream,
    /// 0-RTT data was rejected by the server.
    ZeroRttRejected,
}

/// A [`WriteError`] with its contents as plain values.
#[verifier::ext_equal]
pub enum WriteErrorView {
    Stopped(u64),
    ConnectionLost(ConnectionErrorView),
    ClosedStream,
    ZeroRttRejected,
}

impl View for WriteError {
    type V = WriteErrorView;

    open spec fn view(&self) -> WriteErrorView {
        match self {
            WriteError::Stopped(code) => WriteErrorView::Stopped(code@),
            WriteError::ConnectionLost(e) => WriteErrorView::ConnectionLost(e@),
            WriteError::ClosedStream => WriteErrorView::ClosedStream,
            WriteError::ZeroRttRejected => WriteErrorView::ZeroRttRejected,
        }
    }
}

impl Clone for WriteError {
    fn clone(&self) -> (r: Self)
        ensures
            r@ == self@,
    {
        match self {
            WriteError::Stopped(code) => WriteError::Stopped(*code),
            WriteError::ConnectionLost(e) => WriteError::ConnectionLost(e.clone()),
            WriteError::ClosedStream => WriteError::ClosedStream,
            WriteError::ZeroRttRejected => WriteError::ZeroRttRejected,
        }
    }
}

impl vstd::std_specs::convert::FromSpecImpl<ConnectionError> for WriteError {
    open spec fn obeys_from_spec() -> bool {
        true
    }

    open spec fn from_spec(e: ConnectionError) -> Self {
        WriteError::ConnectionLost(e)
    }
}

impl From<ConnectionError> for WriteError {
    fn from(e: ConnectionError) -> (r: Self) {
        WriteError::ConnectionLost(e)
    }
}

impl WriteErrorView {
    /// The message of the error.
    pub open spec fn message(self) -> Seq<char> {
        match self {
            WriteErrorView::Stopped(code) => "sending stopped by peer: error "@ + text::decimal(
                code as nat,
            ),
            WriteErrorView::ConnectionLost(e) => "connection lost: "@ + e.message(),
            WriteErrorView::ClosedStream => "closed stream"@,
            WriteErrorView::ZeroRttRejected => "0-RTT rejected"@,
        }
    }
}

impl WriteError {
    /// The message of the error.
    pub fn to_string(&self) -> (r: String)
        ensures
            r@ == self@.message(),
    {
        match self {
            WriteError::Stopped(code) => join(
                "sending stopped by peer: error ",
                code.to_string().as_str(),
            ),
            WriteError::ConnectionLost(e) => join("connection lost: ", e.to_string().as_str()),
            WriteError::ClosedStream => "closed stream".to_owned(),
            WriteError::ZeroRttRejected => "0-RTT rejected".to_owned(),
        }
    }
}

/// Errors from waiting for a stream to be stopped.
#[derive(Debug, PartialEq, Eq)]
pub enum StoppedError {
    /// The connection was lost.
    ConnectionLost(ConnectionError),
    /// 0-RTT data was rejected.
    ZeroRttRejected,
}

impl Clone for StoppedError {
    fn clone(&self) -> (r: Self)
        ensures
            match (*self, r) {
                (StoppedError::ConnectionLost(a), StoppedError::ConnectionLost(b)) => a@ == b@,
                (StoppedError::ZeroRttRejected, StoppedError::ZeroRttRejected) => true,
                _ => false,
            },
    {
        match self {
            StoppedError::ConnectionLost(e) => StoppedError::ConnectionLost(e.clone()),
            StoppedError::ZeroRttRejected => StoppedError::ZeroRttRejected,
        }
    }
}

impl vstd::std_specs::convert::FromSpecImpl<ConnectionError> for StoppedError {
    open spec fn obeys_from_spec() -> bool {
        true
    }

    open spec fn from_spec(e: ConnectionError) -> Self {
        StoppedError::ConnectionLost(e)
    }
}

impl From<ConnectionError> for StoppedError {
    fn from(e: ConnectionError) -> (r: Self) {
        StoppedError::ConnectionLost(e)
    }
}

impl StoppedError {
    /// The message of the error.
    pub fn to_string(&self) -> (r: String)
        ensures
            r@ == (match self {
                StoppedError::ConnectionLost(e) => "connection lost: "@ + e@.message(),
                StoppedError::ZeroRttRejected => "0-RTT rejected"@,
            }),
    {
        match self {
            StoppedError::ConnectionLost(e) => join("connection lost: ", e.to_string().as_str()),
            StoppedError::ZeroRttRejected => "0-RTT rejected".to_owned(),
        }
    }
}

/// Error indicating the stream is already closed.
#[derive(Debug, Clone, Copy, PartialEq, Eq, Structural)]
pub struct ClosedStream;

impl ClosedStream {
    /// The message of the error.
    pub fn to_string(&self) -> (r: String)
        ensures
            r@ == "closed stream"@,
    {
        "closed stream".to_owned()
    }
}

/// An I/O error of the kind "broken pipe".
#[derive(Debug, PartialEq, Eq)]
pub struct BrokenPipe {
    /// The message of the error.
    pub message: String,
}

// ---------------------------------------------------------------------------
// The stream
// ---------------------------------------------------------------------------

/// A stream that can be used to send data to the peer.
#[derive(Debug)]
pub struct SendStream {
    conn_id: u64,
    stream_id: u64,
    finished: bool,
    writing: bool,
}

/// The state of a [`SendStream`].
#[verifier::ext_equal]
pub struct SendStreamView {
    /// The connection.
    pub conn_id: u64,
    /// The stream.
    pub stream_id: u64,
    /// The stream has been finished or reset.
    pub finished: bool,
    /// The command of a polled write has been sent and is not answered yet.
    pub writing: bool,
}

impl View for SendStream {
    type V = SendStreamView;

    closed spec fn view(&self) -> SendStreamView {
        SendStreamView {
            conn_id: self.conn_id,
            stream_id: self.stream_id,
            finished: self.finished,
            writing: self.writing,
        }
    }
}

impl SendStreamView {
    /// A new stream: nothing has been written.
    pub open spec fn fresh(conn_id: u64, stream_id: u64) -> SendStreamView {
        SendStreamView { conn_id, stream_id, finished: false, writing: false }
    }

    /// A polled write has to send its command: the stream is open and none is outstanding.
    pub open spec fn sends(self) -> bool {
        !self.finished && !self.writing
    }

    /// The stream once a write was polled.
    pub open spec fn polled(self) -> SendStreamView {
        SendStreamView { writing: self.writing || self.sends(), ..self }
    }

    /// The stream once the command of a polled write is answered.
    pub open spec fn answered(self) -> SendStreamView {
        SendStreamView { writing: false, ..self }
    }

    /// The stream once it is finished or reset.
    pub open spec fn finish(self) -> SendStreamView {
        SendStreamView { finished: true, ..self }
    }
}

/// The command writes the bytes to the stream, and ends it if `fin` says so.
pub open spec fn is_write(
    cmd: BridgeCommand,
    stream: SendStreamView,
    bytes: Seq<u8>,
    fin: bool,
) -> bool {
    &&& cmd matches BridgeCommand::StreamWrite { conn_id, stream_id, data, fin: end }
    &&& conn_id == stream.conn_id
    &&& stream_id == stream.stream_id
    &&& buffer::contents(data) == bytes
    &&& end == fin
}

/// A write that is answered, or else goes on once the stream is writable.
#[derive(Debug)]
pub enum WriteStep {
    /// The write is over.
    Done(Result<usize, WriteError>),
    /// The engine took nothing: wait until the stream is writable, and write again.
    WaitWritable,
}

/// What the answer to a write command makes of the write.
pub open spec fn write_step(answer: Option<Result<usize, WriteError>>) -> WriteStep {
    match answer {
        Some(Ok(n)) => if n == 0 {
            WriteStep::WaitWritable
        } else {
            WriteStep::Done(Ok(n))
        },
        Some(Err(e)) => WriteStep::Done(Err(e)),
        None => WriteStep::Done(Err(WriteError::ConnectionLost(ConnectionError::LocallyClosed))),
    }
}

/// The urgency that a priority stands for: the nearest number from 0 to 255.
pub open spec fn urgency_of(priority: i32) -> u8 {
    if priority < 0 {
        0
    } else if priority > 255 {
        255
    } else {
        priority as u8
    }
}

impl SendStream {
    /// The sending half of a stream of a connection.
    pub fn new(conn_id: u64, stream_id: u64) -> (r: Self)
        ensures
            r@ == SendStreamView::fresh(conn_id, stream_id),
    {
        SendStream { conn_id, stream_id, finished: false, writing: false }
    }

    /// Write data to the stream: the command to be sent.
    pub fn write(&self, buf: &[u8]) -> (r: Result<BridgeCommand, WriteError>)
        ensures
            if self@.finished {
                r == Err::<BridgeCommand, WriteError>(WriteError::ClosedStream)
            } else {
                r matches Ok(cmd) && is_write(cmd, self@, buf@, false)
            },
    {
        if self.finished {
            return Err(WriteError::ClosedStream);
        }
        Ok(
            BridgeCommand::StreamWrite {
                conn_id: self.conn_id,
                stream_id: self.stream_id,
                data: Bytes::copy_from_slice(buf),
                fin: false,
            },
        )
    }

    /// Goes on with a write once its command is answered; `None` where the channel of the answer
    /// was dropped.
    pub fn on_write_answer(answer: Option<Result<usize, WriteError>>) -> (r: WriteStep)
        ensures
            r == write_step(answer),
    {
        match answer {
            // The engine has no capacity. Wait for the writable notification.
            Some(Ok(0)) => WriteStep::WaitWritable,
            Some(Ok(n)) => WriteStep::Done(Ok(n)),
            Some(Err(e)) => WriteStep::Done(Err(e)),
            None => WriteStep::Done(
                Err(WriteError::ConnectionLost(ConnectionError::LocallyClosed)),
            ),
        }
    }

    /// Write all of a buffer to the stream, in as many writes as it takes.
    pub fn write_all(&self, buf: &[u8]) -> (r: WriteAll)
        ensures
            r@ == (WriteAllView { len: buf@.len(), offset: 0 }),
    {
        WriteAll { len: buf.len(), offset: 0 }
    }

    /// Signal that no more data will be sent on this stream: the command to be sent.
    pub fn finish(&mut self) -> (r: Result<BridgeCommand, ClosedStream>)
        ensures
            final(self)@ == old(self)@.finish(),
            if old(self)@.finished {
                r == Err::<BridgeCommand, ClosedStream>(ClosedStream)
            } else {
                r matches Ok(cmd) && is_write(cmd, old(self)@, Seq::empty(), true)
            },
    {
        if self.finished {
            return Err(ClosedStream);
        }
        self.finished = true;

        // A zero-length write that ends the stream.
        Ok(
            BridgeCommand::StreamWrite {
                conn_id: self.conn_id,
                stream_id: self.stream_id,
                data: Bytes::new(),
                fin: true,
            },
        )
    }

    /// Abort the stream, notifying the peer: the command to be sent.
    pub fn reset(&mut self, error_code: VarInt) -> (r: Result<BridgeCommand, ClosedStream>)
        ensures
            final(self)@ == old(self)@.finish(),
            r == (if old(self)@.finished {
                Err(ClosedStream)
            } else {
                Ok(
                    BridgeCommand::StreamShutdownWrite {
                        conn_id: old(self)@.conn_id,
                        stream_id: old(self)@.stream_id,
                        error_code: error_code@,
                    },
                )
            }),
    {
        if self.finished {
            return Err(ClosedStream);
        }
        self.finished = true;
        Ok(
            BridgeCommand::StreamShutdownWrite {
                conn_id: self.conn_id,
                stream_id: self.stream_id,
                error_code: error_code.into_inner(),
            },
        )
    }

    /// Set the send priority of this stream: the command to be sent.
    pub fn set_priority(&self, priority: i32) -> (r: Result<BridgeCommand, ClosedStream>)
        ensures
            r == (if self@.finished {
                Err(ClosedStream)
            } else {
                Ok(
                    BridgeCommand::StreamSetPriority {
                        conn_id: self@.conn_id,
                        stream_id: self@.stream_id,
                        urgency: urgency_of(priority),
                    },
                )
            }),
    {
        if self.finished {
            return Err(ClosedStream);
        }
        let urgency: u8 = if priority < 0 {
            0
        } else if priority > 255 {
            255
        } else {
            priority as u8
        };
        Ok(
            BridgeCommand::StreamSetPriority {
                conn_id: self.conn_id,
                stream_id: self.stream_id,
                urgency,
            },
        )
    }

    /// Get the stream's identifier.
    pub fn id(&self) -> (r: StreamId)
        ensures
            r@ == self@.stream_id,
    {
        StreamId::from_raw(self.stream_id)
    }

    /// Starts to wait until the stream becomes writable: the signal to wait for.
    pub fn wait_writable(&self, handle: &mut BridgeHandle) -> (r: Result<SignalRef, WriteError>)
        requires
            old(handle)@.wf(),
        ensures
            final(handle)@.wf(),
            match old(handle)@.lost(self@.conn_id) {
                Some(e) => {
                    &&& r matches Err(w)
                    &&& w@ == WriteErrorView::ConnectionLost(e)
                    &&& final(handle)@ == old(handle)@
                },
                None => {
                    &&& r matches Ok(signal)
                    &&& final(handle)@ == old(handle)@.writable(self@.conn_id, self@.stream_id)
                    &&& bridge::writable_signal(final(handle)@, self@.conn_id, self@.stream_id)
                        == Some(signal)
                },
            },
    {
        match handle.get_conn_notify(self.conn_id) {
            None => Err(WriteError::ConnectionLost(ConnectionError::LocallyClosed)),
            Some(slot) => match handle.closed_error(slot) {
                Some(e) => Err(WriteError::ConnectionLost(e)),
                None => Ok(handle.get_or_create_writable(slot, self.stream_id)),
            },
        }
    }

    /// Goes on after the wait for the signal: an error if the connection was closed meanwhile.
    pub fn writable_again(handle: &BridgeHandle, waited: SignalRef) -> (r: Result<(), WriteError>)
        requires
            waited.slot < handle@.conns.len(),
        ensures
            match handle@.conns[waited.slot as int].closed {
                Some(e) => r matches Err(w) && w@ == WriteErrorView::ConnectionLost(e),
                None => r is Ok,
            },
    {
        match handle.closed_error(waited.slot) {
            Some(e) => Err(WriteError::ConnectionLost(e)),
            None => Ok(()),
        }
    }

    /// Polls a write of the buffer. A poll sends a command only where none is outstanding, `None`
    /// elsewhere; the caller is woken once it is answered, and goes on with
    /// [`SendStream::on_poll_answer`].
    pub fn poll_write(&mut self, buf: &[u8]) -> (r: Result<Option<BridgeCommand>, BrokenPipe>)
        ensures
            final(self)@ == old(self)@.polled(),
            if old(self)@.finished {
                r matches Err(e) && e.message@ == "stream finished"@
            } else if old(self)@.writing {
                r == Ok::<Option<BridgeCommand>, BrokenPipe>(None)
            } else {
                r matches Ok(Some(cmd)) && is_write(cmd, old(self)@, buf@, false)
            },
    {
        if self.finished {
            return Err(BrokenPipe { message: "stream finished".to_owned() });
        }
        if self.writing {
            return Ok(None);
        }
        self.writing = true;
        Ok(
            Some(
                BridgeCommand::StreamWrite {
                    conn_id: self.conn_id,
                    stream_id: self.stream_id,
                    data: Bytes::copy_from_slice(buf),
                    fin: false,
                },
            ),
        )
    }

    /// Goes on with a polled write once its command is answered: how many bytes were taken. It is
    /// pending where the engine took none: the caller is woken once the stream is writable, and
    /// polls again.
    pub fn on_poll_answer(&mut self, answer: Option<Result<usize, WriteError>>) -> (r: Poll<
        Result<usize, WriteError>,
    >)
        ensures
            final(self)@ == old(self)@.answered(),
            r == (match write_step(answer) {
                WriteStep::Done(result) => Poll::Ready(result),
                WriteStep::WaitWritable => Poll::Pending,
            }),
    {
        self.writing = false;
        match SendStream::on_write_answer(answer) {
            WriteStep::Done(result) => Poll::Ready(result),
            WriteStep::WaitWritable => Poll::Pending,
        }
    }

    /// Shuts the stream down: the command to be sent.
    pub fn poll_shutdown(&mut self) -> (r: Result<BridgeCommand, BrokenPipe>)
        ensures
            final(self)@ == old(self)@.finish(),
            if old(self)@.finished {
                r matches Err(e) && e.message@ == "stream already closed"@
            } else {
                r matches Ok(cmd) && is_write(cmd, old(self)@, Seq::empty(), true)
            },
    {
        match self.finish() {
            Ok(cmd) => Ok(cmd),
            Err(_) => Err(BrokenPipe { message: "stream already closed".to_owned() }),
        }
    }

    /// The stream is about to be dropped: one that is still open is finished, and the command for
    /// that is to be sent.
    pub fn on_drop(&mut self) -> (r: Option<BridgeCommand>)
        ensures
            final(self)@ == old(self)@.finish(),
            if old(self)@.finished {
                r is None
            } else {
                r matches Some(cmd) && is_write(cmd, old(self)@, Seq::empty(), true)
            },
    {
        match self.finish() {
            Ok(cmd) => Some(cmd),
            Err(_) => None,
        }
    }
}

/// A write of a whole buffer, in as many writes as it takes.
#[derive(Debug)]
pub struct WriteAll {
    len: usize,
    offset: usize,
}

/// The state of a [`WriteAll`].
#[verifier::ext_equal]
pub struct WriteAllView {
    /// The length of the buffer.
    pub len: nat,
    /// How many bytes of it have been taken.
    pub offset: nat,
}

impl View for WriteAll {
    type V = WriteAllView;

    closed spec fn view(&self) -> WriteAllView {
        WriteAllView { len: self.len as nat, offset: self.offset as nat }
    }
}

impl WriteAllView {
    /// No more than the buffer has been taken.
    pub open spec fn wf(self) -> bool {
        self.offset <= self.len
    }

    /// The state once a write of the rest of the buffer took `n` bytes.
    pub open spec fn wrote(self, n: nat) -> WriteAllView {
        WriteAllView {
            offset: if self.offset + n < self.len {
                self.offset + n
            } else {
                self.len
            },
            ..self
        }
    }
}

impl WriteAll {
    #[verifier::type_invariant]
    closed spec fn within(self) -> bool {
        self.offset <= self.len
    }

    /// Where the rest of the buffer starts; `None` once there is none.
    pub fn next(&self) -> (r: Option<usize>)
        ensures
            self@.wf(),
            if self@.offset < self@.len {
                r matches Some(start) && start == self@.offset
            } else {
                r is None
            },
    {
        proof {
            use_type_invariant(self);
        }
        if self.offset < self.len {
            Some(self.offset)
        } else {
            None
        }
    }

    /// Takes note that a write of the rest of the buffer took its first `n` bytes.
    pub fn wrote(&mut self, n: usize)
        ensures
            final(self)@ == old(self)@.wrote(n as nat),
            old(self)@.offset + n <= old(self)@.len ==> final(self)@.offset == old(self)@.offset
                + n,
            old(self)@.offset + n > old(self)@.len ==> final(self)@.offset == old(self)@.len,
    {
        proof {
            use_type_invariant(&*self);
        }
        if n < self.len - self.offset {
            self.offset = self.offset + n;
        } else {
            self.offset = self.len;
        }
    }
}

} // verus!
