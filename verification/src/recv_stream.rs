//! The receiving half of a stream.
use vstd::prelude::*;
use vstd::string::*;

use crate::bridge;
use crate::bridge::{BridgeHandle, SignalRef};
use crate::command::BridgeCommand;
use crate::error::{ConnectionError, ConnectionErrorView};
use crate::send_stream::ClosedStream;
use crate::text;
use crate::text::{decimal_text, join};
use crate::types::{Poll, StreamId, VarInt};

verus! {

// ---------------------------------------------------------------------------
// Errors
// ---------------------------------------------------------------------------

/// Errors from reading a [`RecvStream`].
#[derive(Debug, PartialEq, Eq)]
pub enum ReadError {
    /// The stream was reset by the peer.
    Reset(VarInt),
    /// The connection was lost.
    ConnectionLost(ConnectionError),
    /// The stream was already stopped or finished.
    ClosedStream,
    /// 0-RTT data was rejected.
    ZeroRttRejected,
}

/// A [`ReadError`] with its contents as plain values.
#[verifier::ext_equal]
pub enum ReadErrorView {
    Reset(u64),
    ConnectionLost(ConnectionErrorView),
    ClosedStream,
    ZeroRttRejected,
}

impl View for ReadError {
    type V = ReadErrorView;

    open spec fn view(&self) -> ReadErrorView {
        match self {
            ReadError::Reset(code) => ReadErrorView::Reset(code@),
            ReadError::ConnectionLost(e) => ReadErrorView::ConnectionLost(e@),
            ReadError::ClosedStream => ReadErrorView::ClosedStream,
            ReadError::ZeroRttRejected => ReadErrorView::ZeroRttRejected,
        }
    }
}

impl Clone for ReadError {
    fn clone(&self) -> (r: Self)
        ensures
            r@ == self@,
    {
        match self {
            ReadError::Reset(code) => ReadError::Reset(*code),
            ReadError::ConnectionLost(e) => ReadError::ConnectionLost(e.clone()),
            ReadError::ClosedStream => ReadError::ClosedStream,
            ReadError::ZeroRttRejected => ReadError::ZeroRttRejected,
        }
    }
}

impl vstd::std_specs::convert::FromSpecImpl<ConnectionError> for ReadError {
    open spec fn obeys_from_spec() -> bool {
        true
    }

    open spec fn from_spec(e: ConnectionError) -> Self {
        ReadError::ConnectionLost(e)
    }
}

impl From<ConnectionError> for ReadError {
    fn from(e: ConnectionError) -> (r: Self) {
        ReadError::ConnectionLost(e)
    }
}

impl ReadErrorView {
    /// The message of the error.
    pub open spec fn message(self) -> Seq<char> {
        match self {
            ReadErrorView::Reset(code) => "stream reset by peer: error "@ + text::decimal(
                code as nat,
            ),
            ReadErrorView::ConnectionLost(e) => "connection lost: "@ + e.message(),
            ReadErrorView::ClosedStream => "closed stream"@,
            ReadErrorView::ZeroRttRejected => "0-RTT rejected"@,
        }
    }
}

impl ReadError {
    /// The message of the error.
    pub fn to_string(&self) -> (r: String)
        ensures
            r@ == self@.message(),
    {
        match self {
            ReadError::Reset(code) => join(
                "stream reset by peer: error ",
                code.to_string().as_str(),
            ),
            ReadError::ConnectionLost(e) => join("connection lost: ", e.to_string().as_str()),
            ReadError::ClosedStream => "closed stream".to_owned(),
            ReadError::ZeroRttRejected => "0-RTT rejected".to_owned(),
        }
    }
}

/// Errors from [`RecvStream::read_exact`].
#[derive(Debug, PartialEq, Eq)]
pub enum ReadExactError {
    /// The stream finished before enough data was received.
    FinishedEarly(usize),
    /// A read error occurred.
    ReadError(ReadError),
}

impl Clone for ReadExactError {
    fn clone(&self) -> (r: Self)
        ensures
            match (*self, r) {
                (ReadExactError::FinishedEarly(a), ReadExactError::FinishedEarly(b)) => a == b,
                (ReadExactError::ReadError(a), ReadExactError::ReadError(b)) => a@ == b@,
                _ => false,
            },
    {
        match self {
            ReadExactError::FinishedEarly(n) => ReadExactError::FinishedEarly(*n),
            ReadExactError::ReadError(e) => ReadExactError::ReadError(e.clone()),
        }
    }
}

impl vstd::std_specs::convert::FromSpecImpl<ReadError> for ReadExactError {
    open spec fn obeys_from_spec() -> bool {
        true
    }

    open spec fn from_spec(e: ReadError) -> Self {
        ReadExactError::ReadError(e)
    }
}

impl From<ReadError> for ReadExactError {
    fn from(e: ReadError) -> (r: Self) {
        ReadExactError::ReadError(e)
    }
}

impl ReadExactError {
    /// The message of the error.
    pub fn to_string(&self) -> (r: String)
        ensures
            r@ == (match self {
                ReadExactError::FinishedEarly(n) => "stream finished early ("@ + text::decimal(
                    *n as nat,
                ) + " bytes read)"@,
                ReadExactError::ReadError(e) => e@.message(),
            }),
    {
        match self {
            ReadExactError::FinishedEarly(n) => {
                let mut r = join("stream finished early (", decimal_text(*n as u64).as_str());
                r.append(" bytes read)");
                r
            },
            ReadExactError::ReadError(e) => e.to_string(),
        }
    }
}

/// Errors from [`RecvStream::read_to_end`].
#[derive(Debug, PartialEq, Eq)]
pub enum ReadToEndError {
    /// A read error occurred.
    Read(ReadError),
    /// The stream exceeded the size limit.
    TooLong,
}

impl Clone for ReadToEndError {
    fn clone(&self) -> (r: Self)
        ensures
            match (*self, r) {
                (ReadToEndError::Read(a), ReadToEndError::Read(b)) => a@ == b@,
                (ReadToEndError::TooLong, ReadToEndError::TooLong) => true,
                _ => false,
            },
    {
        match self {
            ReadToEndError::Read(e) => ReadToEndError::Read(e.clone()),
            ReadToEndError::TooLong => ReadToEndError::TooLong,
        }
    }
}

impl vstd::std_specs::convert::FromSpecImpl<ReadError> for ReadToEndError {
    open spec fn obeys_from_spec() -> bool {
        true
    }

    open spec fn from_spec(e: ReadError) -> Self {
        ReadToEndError::Read(e)
    }
}

impl From<ReadError> for ReadToEndError {
    fn from(e: ReadError) -> (r: Self) {
        ReadToEndError::Read(e)
    }
}

impl ReadToEndError {
    /// The message of the error.
    pub fn to_string(&self) -> (r: String)
        ensures
            r@ == (match self {
                ReadToEndError::Read(e) => "read error: "@ + e@.message(),
                ReadToEndError::TooLong => "stream too long"@,
            }),
    {
        match self {
            ReadToEndError::Read(e) => join("read error: ", e.to_string().as_str()),
            ReadToEndError::TooLong => "stream too long".to_owned(),
        }
    }
}

/// Errors from waiting for a stream reset.
#[derive(Debug, PartialEq, Eq)]
pub enum ResetError {
    /// The connection was lost.
    ConnectionLost(ConnectionError),
    /// 0-RTT data was rejected.
    ZeroRttRejected,
}

impl Clone for ResetError {
    fn clone(&self) -> (r: Self)
        ensures
            match (*self, r) {
                (ResetError::ConnectionLost(a), ResetError::ConnectionLost(b)) => a@ == b@,
                (ResetError::ZeroRttRejected, ResetError::ZeroRttRejected) => true,
                _ => false,
            },
    {
        match self {
            ResetError::ConnectionLost(e) => ResetError::ConnectionLost(e.clone()),
            ResetError::ZeroRttRejected => ResetError::ZeroRttRejected,
        }
    }
}

impl vstd::std_specs::convert::FromSpecImpl<ConnectionError> for ResetError {
    open spec fn obeys_from_spec() -> bool {
        true
    }

    open spec fn from_spec(e: ConnectionError) -> Self {
        ResetError::ConnectionLost(e)
    }
}

impl From<ConnectionError> for ResetError {
    fn from(e: ConnectionError) -> (r: Self) {
        ResetError::ConnectionLost(e)
    }
}

impl ResetError {
    /// The message of the error.
    pub fn to_string(&self) -> (r: String)
        ensures
            r@ == (match self {
                ResetError::ConnectionLost(e) => "connection lost: "@ + e@.message(),
                ResetError::ZeroRttRejected => "0-RTT rejected"@,
            }),
    {
        match self {
            ResetError::ConnectionLost(e) => join("connection lost: ", e.to_string().as_str()),
            ResetError::ZeroRttRejected => "0-RTT rejected".to_owned(),
        }
    }
}

// ---------------------------------------------------------------------------
// The stream
// ---------------------------------------------------------------------------

/// A stream that can be used to receive data from the peer.
#[derive(Debug)]
pub struct RecvStream {
    conn_id: u64,
    stream_id: u64,
    all_data_read: bool,
    reading: bool,
    kept: Vec<u8>,
}

/// The state of a [`RecvStream`].
#[verifier::ext_equal]
pub struct RecvStreamView {
    /// The connection.
    pub conn_id: u64,
    /// The stream.
    pub stream_id: u64,
    /// The stream has been read to its end, or stopped.
    pub all_data_read: bool,
    /// A read command has been sent and is not answered yet.
    pub reading: bool,
    /// The bytes that have come from the engine and were not handed out yet.
    pub kept: Seq<u8>,
}

impl View for RecvStream {
    type V = RecvStreamView;

    closed spec fn view(&self) -> RecvStreamView {
        RecvStreamView {
            conn_id: self.conn_id,
            stream_id: self.stream_id,
            all_data_read: self.all_data_read,
            reading: self.reading,
            kept: self.kept@,
        }
    }
}

impl RecvStreamView {
    /// A new stream: nothing has been read.
    pub open spec fn fresh(conn_id: u64, stream_id: u64) -> RecvStreamView {
        RecvStreamView {
            conn_id,
            stream_id,
            all_data_read: false,
            reading: false,
            kept: Seq::empty(),
        }
    }

    /// The stream once it is stopped: one that has not ended gives up what it kept, and the answer
    /// that it waited for.
    pub open spec fn stopped(self) -> RecvStreamView {
        if self.all_data_read {
            self
        } else {
            RecvStreamView { all_data_read: true, reading: false, kept: Seq::empty(), ..self }
        }
    }

    /// The kept bytes that fit a buffer of the length.
    pub open spec fn given(self, room: nat) -> Seq<u8> {
        if self.kept.len() <= room {
            self.kept
        } else {
            self.kept.take(room as int)
        }
    }

    /// The stream once these bytes are handed out.
    pub open spec fn gave(self, room: nat) -> RecvStreamView {
        RecvStreamView { kept: self.kept.skip(self.given(room).len() as int), ..self }
    }

    /// A read has to ask the engine: nothing is kept, the stream has not ended, and no read command
    /// is outstanding.
    pub open spec fn asks(self) -> bool {
        self.kept.len() == 0 && !self.all_data_read && !self.reading
    }

    /// The stream once a read into a buffer of the length has started.
    pub open spec fn started(self, room: nat) -> RecvStreamView {
        if self.asks() {
            RecvStreamView { reading: true, ..self }
        } else {
            self.gave(room)
        }
    }

    /// The stream once its read command is answered.
    pub open spec fn brought(self, answer: ReadAnswer) -> RecvStreamView {
        RecvStreamView {
            all_data_read: self.all_data_read || read_fin(answer),
            reading: false,
            kept: self.kept + read_bytes(answer),
            ..self
        }
    }

    /// The stream once a read into a buffer of the length has got the answer.
    pub open spec fn answered(self, answer: ReadAnswer, room: nat) -> RecvStreamView {
        if answer matches Some(Ok(_)) {
            self.brought(answer).gave(room)
        } else {
            self.brought(answer)
        }
    }

    /// The bytes that the read hands out.
    pub open spec fn handed(self, answer: ReadAnswer, room: nat) -> Seq<u8> {
        if answer matches Some(Ok(_)) {
            self.brought(answer).given(room)
        } else {
            Seq::empty()
        }
    }

    /// What the answer makes of the read.
    pub open spec fn step(self, answer: ReadAnswer, room: nat) -> ReadStep {
        match answer {
            Some(Ok((data, fin))) => if self.brought(answer).kept.len() == 0 {
                if fin {
                    ReadStep::Done(Ok(None))
                } else {
                    ReadStep::WaitReadable
                }
            } else {
                ReadStep::Done(Ok(Some(self.handed(answer, room).len() as usize)))
            },
            Some(Err(e)) => ReadStep::Done(Err(e)),
            None => ReadStep::Done(
                Err(ReadError::ConnectionLost(ConnectionError::LocallyClosed)),
            ),
        }
    }

    /// The command that asks for up to `max_len` bytes of the stream.
    pub open spec fn read_command(self, max_len: usize) -> BridgeCommand {
        BridgeCommand::StreamRead { conn_id: self.conn_id, stream_id: self.stream_id, max_len }
    }

    /// How a read into a buffer of the length starts.
    pub open spec fn start(self, room: usize) -> ReadStart {
        if self.kept.len() > 0 {
            ReadStart::Done(Some(self.given(room as nat).len() as usize))
        } else if self.all_data_read {
            ReadStart::Done(None)
        } else if self.reading {
            ReadStart::Await
        } else {
            ReadStart::Send(self.read_command(room))
        }
    }

    /// The command that stops the stream; an error once it has ended.
    pub open spec fn stop_command(self, error_code: u64) -> Result<BridgeCommand, ClosedStream> {
        if self.all_data_read {
            Err(ClosedStream)
        } else {
            Ok(
                BridgeCommand::StreamShutdownRead {
                    conn_id: self.conn_id,
                    stream_id: self.stream_id,
                    error_code,
                },
            )
        }
    }
}

/// How a read starts.
pub enum ReadStart {
    /// The read is over: how many kept bytes were read, or `None` at the end of the stream.
    Done(Option<usize>),
    /// Send the command, and go on with its answer.
    Send(BridgeCommand),
    /// Go on with the answer of the command that was sent before.
    Await,
}

/// A read that is answered, or else goes on once the stream is readable.
#[derive(Debug)]
pub enum ReadStep {
    /// The read is over: how many bytes were read, or `None` at the end of the stream.
    Done(Result<Option<usize>, ReadError>),
    /// There was nothing to read: wait until the stream is readable, and read again.
    WaitReadable,
}

/// The answer to a read command: the bytes, and whether the stream ends after them.
pub type ReadAnswer = Option<Result<(Vec<u8>, bool), ReadError>>;

/// The bytes that the answer to a read command brings.
pub open spec fn read_bytes(answer: ReadAnswer) -> Seq<u8> {
    match answer {
        Some(Ok((data, _))) => data@,
        _ => Seq::empty(),
    }
}

/// The answer to a read command says that the stream ends after its bytes.
pub open spec fn read_fin(answer: ReadAnswer) -> bool {
    answer matches Some(Ok((_, fin))) && fin
}

/// A buffer with its first bytes replaced.
pub open spec fn overwritten(buf: Seq<u8>, bytes: Seq<u8>) -> Seq<u8> {
    bytes + buf.skip(bytes.len() as int)
}

fn overwrite(buf: &mut [u8], bytes: &Vec<u8>)
    requires
        bytes@.len() <= old(buf)@.len(),
    ensures
        final(buf)@ == overwritten(old(buf)@, bytes@),
{
    let mut i: usize = 0;
    while i < bytes.len()
        invariant
            i <= bytes@.len() <= old(buf)@.len(),
            buf@ == bytes@.take(i as int) + old(buf)@.skip(i as int),
        decreases bytes@.len() - i,
    {
        buf[i] = bytes[i];
        i += 1;
        assert(buf@ =~= bytes@.take(i as int) + old(buf)@.skip(i as int));
    }
    assert(bytes@.take(i as int) =~= bytes@);
}

impl RecvStream {
    /// The receiving half of a stream of a connection.
    pub fn new(conn_id: u64, stream_id: u64) -> (r: Self)
        ensures
            r@ == RecvStreamView::fresh(conn_id, stream_id),
    {
        RecvStream { conn_id, stream_id, all_data_read: false, reading: false, kept: Vec::new() }
    }

    /// Moves as many kept bytes to the start of the buffer as fit.
    fn hand_out(&mut self, buf: &mut [u8]) -> (n: usize)
        ensures
            n == old(self)@.given(old(buf)@.len()).len(),
            final(buf)@ == overwritten(old(buf)@, old(self)@.given(old(buf)@.len())),
            final(self)@ == old(self)@.gave(old(buf)@.len()),
    {
        let n: usize = if self.kept.len() <= buf.len() {
            self.kept.len()
        } else {
            buf.len()
        };
        let rest = self.kept.split_off(n);
        overwrite(buf, &self.kept);
        proof {
            let given = old(self)@.given(old(buf)@.len());
            assert(given =~= old(self).kept@.take(n as int));
            assert(rest@ =~= old(self).kept@.skip(n as int));
        }
        self.kept = rest;
        n
    }

    /// Starts a read into the buffer. Kept bytes come first; the engine is asked where there are
    /// none, unless it was asked before and has not answered yet.
    pub fn read(&mut self, buf: &mut [u8]) -> (r: ReadStart)
        ensures
            r == old(self)@.start(old(buf)@.len() as usize),
            r is Send <==> old(self)@.asks(),
            final(buf)@ == overwritten(old(buf)@, old(self)@.given(old(buf)@.len())),
            final(self)@ == old(self)@.started(old(buf)@.len()),
    {
        let max_len: usize = buf.len();
        if self.kept.len() > 0 {
            return ReadStart::Done(Some(self.hand_out(buf)));
        }
        proof {
            assert(self@.given(buf@.len()) =~= Seq::empty());
            assert(overwritten(buf@, Seq::empty()) =~= buf@);
            assert(self@.gave(buf@.len()).kept =~= self@.kept);
        }
        if self.all_data_read {
            return ReadStart::Done(None);
        }
        if self.reading {
            return ReadStart::Await;
        }
        self.reading = true;
        ReadStart::Send(
            BridgeCommand::StreamRead {
                conn_id: self.conn_id,
                stream_id: self.stream_id,
                max_len,
            },
        )
    }

    /// Goes on with a read once its command is answered; `None` where the channel of the answer
    /// was dropped. The bytes go to the start of the buffer; those that do not fit are kept.
    pub fn on_read_answer(&mut self, buf: &mut [u8], answer: ReadAnswer) -> (r: ReadStep)
        ensures
            r == old(self)@.step(answer, old(buf)@.len()),
            final(buf)@ == overwritten(old(buf)@, old(self)@.handed(answer, old(buf)@.len())),
            final(self)@ == old(self)@.answered(answer, old(buf)@.len()),
            final(self)@.all_data_read == (old(self)@.all_data_read || (answer matches Some(
                Ok((_, fin)),
            ) && fin)),
    {
        self.reading = false;
        assert(overwritten(buf@, Seq::empty()) =~= buf@);
        match answer {
            Some(Ok((data, fin))) => {
                let mut data = data;
                self.kept.append(&mut data);
                if fin {
                    self.all_data_read = true;
                }
                assert(self@ =~= old(self)@.brought(answer));
                if self.kept.len() == 0 {
                    assert(self@.given(buf@.len()) =~= Seq::empty());
                    assert(self@.gave(buf@.len()).kept =~= self@.kept);
                    if fin {
                        ReadStep::Done(Ok(None))
                    } else {
                        // Nothing is available. Wait for the readable notification.
                        ReadStep::WaitReadable
                    }
                } else {
                    ReadStep::Done(Ok(Some(self.hand_out(buf))))
                }
            },
            Some(Err(e)) => {
                assert(self@ =~= old(self)@.brought(answer));
                ReadStep::Done(Err(e))
            },
            None => {
                assert(self@ =~= old(self)@.brought(answer));
                ReadStep::Done(Err(ReadError::ConnectionLost(ConnectionError::LocallyClosed)))
            },
        }
    }

    /// Read exactly as many bytes as a buffer holds, in as many reads as it takes.
    pub fn read_exact(&self, buf_len: usize) -> (r: ReadExact)
        ensures
            r@ == (ReadExactView { len: buf_len as nat, offset: 0 }),
    {
        ReadExact { len: buf_len, offset: 0 }
    }

    /// Read all remaining data from the stream, in as many reads as it takes.
    pub fn read_to_end(&self, size_limit: usize) -> (r: ReadToEnd)
        ensures
            r@ == (ReadToEndView { data: Seq::empty(), size_limit: size_limit as nat }),
    {
        ReadToEnd { data: Vec::new(), size_limit }
    }

    /// Stop reading from the stream, signaling to the peer: the command to be sent.
    pub fn stop(&mut self, error_code: VarInt) -> (r: Result<BridgeCommand, ClosedStream>)
        ensures
            final(self)@ == old(self)@.stopped(),
            r == old(self)@.stop_command(error_code@),
    {
        if self.all_data_read {
            return Err(ClosedStream);
        }
        self.all_data_read = true;
        self.reading = false;
        self.kept = Vec::new();
        Ok(
            BridgeCommand::StreamShutdownRead {
                conn_id: self.conn_id,
                stream_id: self.stream_id,
                error_code: error_code.into_inner(),
            },
        )
    }

    /// Get the stream's identifier.
    pub fn id(&self) -> (r: StreamId)
        ensures
            r@ == self@.stream_id,
    {
        StreamId::from_raw(self.stream_id)
    }

    /// Starts to wait until the stream becomes readable: the signal to wait for.
    pub fn wait_readable(&self, handle: &mut BridgeHandle) -> (r: Result<SignalRef, ReadError>)
        requires
            old(handle)@.wf(),
        ensures
            final(handle)@.wf(),
            match old(handle)@.lost(self@.conn_id) {
                Some(e) => {
                    &&& r matches Err(x)
                    &&& x@ == ReadErrorView::ConnectionLost(e)
                    &&& final(handle)@ == old(handle)@
                },
                None => {
                    &&& r matches Ok(signal)
                    &&& final(handle)@ == old(handle)@.readable(self@.conn_id, self@.stream_id)
                    &&& bridge::readable_signal(final(handle)@, self@.conn_id, self@.stream_id)
                        == Some(signal)
                },
            },
    {
        match handle.get_conn_notify(self.conn_id) {
            None => Err(ReadError::ConnectionLost(ConnectionError::LocallyClosed)),
            Some(slot) => match handle.closed_error(slot) {
                Some(e) => Err(ReadError::ConnectionLost(e)),
                None => Ok(handle.get_or_create_readable(slot, self.stream_id)),
            },
        }
    }

    /// Goes on after the wait for the signal: an error if the connection was closed meanwhile.
    pub fn readable_again(handle: &BridgeHandle, waited: SignalRef) -> (r: Result<(), ReadError>)
        requires
            waited.slot < handle@.conns.len(),
        ensures
            match handle@.conns[waited.slot as int].closed {
                Some(e) => r matches Err(x) && x@ == ReadErrorView::ConnectionLost(e),
                None => r is Ok,
            },
    {
        match handle.closed_error(waited.slot) {
            Some(e) => Err(ReadError::ConnectionLost(e)),
            None => Ok(()),
        }
    }

    /// Polls a read into the buffer. A poll sends a command only where none is outstanding; the
    /// caller is woken once it is answered, and goes on with [`RecvStream::on_poll_answer`].
    pub fn poll_read(&mut self, buf: &mut [u8]) -> (r: ReadStart)
        ensures
            r == old(self)@.start(old(buf)@.len() as usize),
            r is Send <==> old(self)@.asks(),
            final(buf)@ == overwritten(old(buf)@, old(self)@.given(old(buf)@.len())),
            final(self)@ == old(self)@.started(old(buf)@.len()),
    {
        self.read(buf)
    }

    /// Goes on with a polled read once its command is answered: how many bytes were read, none of
    /// them at the end of the stream. It is pending where there was nothing to read: the caller is
    /// woken once the stream is readable, and polls again.
    pub fn on_poll_answer(&mut self, buf: &mut [u8], answer: ReadAnswer) -> (r: Poll<
        Result<usize, ReadError>,
    >)
        ensures
            r == (match old(self)@.step(answer, old(buf)@.len()) {
                ReadStep::Done(Ok(Some(n))) => Poll::Ready(Ok(n)),
                ReadStep::Done(Ok(None)) => Poll::Ready(Ok(0)),
                ReadStep::Done(Err(e)) => Poll::Ready(Err(e)),
                ReadStep::WaitReadable => Poll::Pending,
            }),
            final(buf)@ == overwritten(old(buf)@, old(self)@.handed(answer, old(buf)@.len())),
            final(self)@ == old(self)@.answered(answer, old(buf)@.len()),
            final(self)@.all_data_read == (old(self)@.all_data_read || (answer matches Some(
                Ok((_, fin)),
            ) && fin)),
    {
        match self.on_read_answer(buf, answer) {
            ReadStep::Done(Ok(Some(n))) => Poll::Ready(Ok(n)),
            ReadStep::Done(Ok(None)) => Poll::Ready(Ok(0)),
            ReadStep::Done(Err(e)) => Poll::Ready(Err(e)),
            ReadStep::WaitReadable => Poll::Pending,
        }
    }

    /// The stream is about to be dropped: one that has not ended is stopped with error code 0,
    /// and the command for that is to be sent.
    pub fn on_drop(&mut self) -> (r: Option<BridgeCommand>)
        ensures
            final(self)@ == old(self)@.stopped(),
            r == (match old(self)@.stop_command(0) {
                Ok(cmd) => Some(cmd),
                Err(_) => None,
            }),
    {
        match self.stop(VarInt::from(0u32)) {
            Ok(cmd) => Some(cmd),
            Err(_) => None,
        }
    }
}

// ---------------------------------------------------------------------------
// Reads that take several steps
// ---------------------------------------------------------------------------

/// A read of exactly as many bytes as a buffer holds.
#[derive(Debug)]
pub struct ReadExact {
    len: usize,
    offset: usize,
}

/// The state of a [`ReadExact`].
#[verifier::ext_equal]
pub struct ReadExactView {
    /// The length of the buffer.
    pub len: nat,
    /// How many bytes of it have been filled.
    pub offset: nat,
}

impl View for ReadExact {
    type V = ReadExactView;

    closed spec fn view(&self) -> ReadExactView {
        ReadExactView { len: self.len as nat, offset: self.offset as nat }
    }
}

impl ReadExactView {
    /// No more than the buffer has been filled.
    pub open spec fn wf(self) -> bool {
        self.offset <= self.len
    }

    /// The state once `n` more bytes have been filled.
    pub open spec fn filled(self, n: nat) -> ReadExactView {
        ReadExactView { offset: self.offset + n, ..self }
    }
}

impl ReadExact {
    #[verifier::type_invariant]
    closed spec fn within(self) -> bool {
        self.offset <= self.len
    }

    /// Where the rest of the buffer starts; `None` once it is filled.
    pub fn next(&self) -> (r: Option<usize>)
        ensures
            self@.wf(),
            if self@.offset < self@.len {
                r matches Some(start) && start == self@.offset
            } else {
                r is None
            },
    {
        proof {
            use_type_invariant(self);
        }
        if self.offset < self.len {
            Some(self.offset)
        } else {
            None
        }
    }

    /// Goes on once a read into the rest of the buffer is over. Yields the error that ends the
    /// whole read, if there is one.
    pub fn on_read(&mut self, result: Result<Option<usize>, ReadError>) -> (r: Option<
        ReadExactError,
    >)
        requires
            result matches Ok(Some(n)) ==> old(self)@.offset + n <= old(self)@.len,
        ensures
            match result {
                Ok(Some(n)) => r is None && final(self)@ == old(self)@.filled(n as nat),
                Ok(None) => {
                    &&& r matches Some(ReadExactError::FinishedEarly(count))
                    &&& count == old(self)@.offset
                    &&& final(self)@ == old(self)@
                },
                Err(e) => {
                    &&& r == Some(ReadExactError::ReadError(e))
                    &&& final(self)@ == old(self)@
                },
            },
    {
        match result {
            Ok(Some(n)) => {
                self.offset = self.offset + n;
                None
            },
            Ok(None) => Some(ReadExactError::FinishedEarly(self.offset)),
            Err(e) => Some(ReadExactError::ReadError(e)),
        }
    }
}

/// How many bytes are asked for at a time where a stream is read to its end.
pub const READ_CHUNK: usize = 8192;

/// A read of all remaining data.
#[derive(Debug)]
pub struct ReadToEnd {
    data: Vec<u8>,
    size_limit: usize,
}

/// The state of a [`ReadToEnd`].
#[verifier::ext_equal]
pub struct ReadToEndView {
    /// What has been read.
    pub data: Seq<u8>,
    /// The most bytes that may be read.
    pub size_limit: nat,
}

impl View for ReadToEnd {
    type V = ReadToEndView;

    closed spec fn view(&self) -> ReadToEndView {
        ReadToEndView { data: self.data@, size_limit: self.size_limit as nat }
    }
}

impl ReadToEndView {
    /// The state once more bytes have been read.
    pub open spec fn grown(self, bytes: Seq<u8>) -> ReadToEndView {
        ReadToEndView { data: self.data + bytes, ..self }
    }
}

impl ReadToEnd {
    /// Goes on once a read into the buffer is over. Yields what ends the whole read, if anything
    /// does: all the data at the end of the stream, or an error.
    pub fn on_read(&mut self, buf: &[u8], result: Result<Option<usize>, ReadError>) -> (r: Poll<
        Result<Vec<u8>, ReadToEndError>,
    >)
        requires
            result matches Ok(Some(n)) ==> n <= buf@.len(),
        ensures
            match result {
                Ok(Some(n)) => {
                    &&& final(self)@ == old(self)@.grown(buf@.take(n as int))
                    &&& if final(self)@.data.len() > old(self)@.size_limit {
                        r == Poll::<Result<Vec<u8>, ReadToEndError>>::Ready(
                            Err(ReadToEndError::TooLong),
                        )
                    } else {
                        r is Pending
                    }
                },
                Ok(None) => {
                    &&& r matches Poll::Ready(Ok(data))
                    &&& data@ == old(self)@.data
                    &&& final(self)@ == (ReadToEndView { data: Seq::empty(), ..old(self)@ })
                },
                Err(e) => {
                    &&& r == Poll::<Result<Vec<u8>, ReadToEndError>>::Ready(
                        Err(ReadToEndError::Read(e)),
                    )
                    &&& final(self)@ == old(self)@
                },
            },
    {
        match result {
            Ok(Some(n)) => {
                let mut i: usize = 0;
                while i < n
                    invariant
                        i <= n <= buf@.len(),
                        self.data@ == old(self).data@ + buf@.take(i as int),
                        self.size_limit == old(self).size_limit,
                    decreases n - i,
                {
                    self.data.push(buf[i]);
                    i += 1;
                    assert(buf@.take(i as int) =~= buf@.take(i - 1).push(buf@[i - 1]));
                }
                if self.data.len() > self.size_limit {
                    return Poll::Ready(Err(ReadToEndError::TooLong));
                }
                Poll::Pending
            },
            Ok(None) => {
                let mut data: Vec<u8> = Vec::new();
                data.append(&mut self.data);
                assert(data@ =~= old(self).data@);
                Poll::Ready(Ok(data))
            },
            Err(e) => Poll::Ready(Err(ReadToEndError::Read(e))),
        }
    }
}

} // verus!
