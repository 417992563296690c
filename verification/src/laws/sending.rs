//! What the sending half of a stream does, from the arguments and results of its functions alone.
use vstd::prelude::*;

use crate::bridge::{BridgeHandle, BridgeTransportHandler, SignalRef};
use crate::buffer;
use crate::command::BridgeCommand;
use crate::error::{ConnectionError, ConnectionErrorView};
use crate::send_stream::{
    BrokenPipe, ClosedStream, SendStream, WriteAll, WriteError, WriteErrorView, WriteStep,
};
use crate::types::{Poll, StreamId, VarInt};

verus! {

/// The command writes the bytes to the stream of the connection, and ends the stream if `end` says
/// so.
pub open spec fn writes(
    cmd: BridgeCommand,
    conn: u64,
    stream: u64,
    bytes: Seq<u8>,
    end: bool,
) -> bool {
    &&& cmd matches BridgeCommand::StreamWrite { conn_id, stream_id, data, fin }
    &&& conn_id == conn
    &&& stream_id == stream
    &&& buffer::contents(data) == bytes
    &&& fin == end
}

/// A new stream has the identifier that it was made with, and takes any bytes: a write asks for
/// just these bytes to be sent on it, and does not end it.
pub proof fn law_new_stream_takes_bytes(
    conn: u64,
    stream: u64,
    send: SendStream,
    id: StreamId,
    raw: u64,
    buf: &[u8],
    written: Result<BridgeCommand, WriteError>,
)
    requires
        call_ensures(SendStream::new, (conn, stream), send),
        call_ensures(SendStream::id, (&send,), id),
        call_ensures(StreamId::into_inner, (id,), raw),
        call_ensures(SendStream::write, (&send, buf), written),
    ensures
        raw == stream,
        written matches Ok(cmd) && writes(cmd, conn, stream, buf@, false),
{
}

/// A write on a stream that has not ended asks for the bytes to be sent on it, and one on a stream
/// that has ended is refused.
pub proof fn law_write_asks_for_its_bytes(
    send: SendStream,
    buf: &[u8],
    written: Result<BridgeCommand, WriteError>,
)
    requires
        call_ensures(SendStream::write, (&send, buf), written),
    ensures
        !send@.finished ==> (written matches Ok(cmd) && writes(
            cmd,
            send@.conn_id,
            send@.stream_id,
            buf@,
            false,
        )),
        send@.finished ==> written == Err::<BridgeCommand, WriteError>(WriteError::ClosedStream),
{
}

/// A stream that was finished takes nothing more, and is finished by one command without bytes.
pub proof fn law_finished_stream_takes_nothing(
    send: &mut SendStream,
    finished: Result<BridgeCommand, ClosedStream>,
    buf: &[u8],
    written: Result<BridgeCommand, WriteError>,
    priority: i32,
    set: Result<BridgeCommand, ClosedStream>,
    later: &mut SendStream,
    again: Result<BridgeCommand, ClosedStream>,
)
    requires
        call_ensures(SendStream::finish, (send,), finished),
        call_ensures(SendStream::write, (&*final(send), buf), written),
        call_ensures(SendStream::set_priority, (&*final(send), priority), set),
        *old(later) == *final(send),
        call_ensures(SendStream::finish, (later,), again),
    ensures
        !old(send)@.finished ==> (finished matches Ok(cmd) && writes(
            cmd,
            old(send)@.conn_id,
            old(send)@.stream_id,
            Seq::empty(),
            true,
        )),
        old(send)@.finished ==> finished is Err,
        written == Err::<BridgeCommand, WriteError>(WriteError::ClosedStream),
        set is Err,
        again is Err,
        final(send)@.conn_id == old(send)@.conn_id,
        final(send)@.stream_id == old(send)@.stream_id,
{
}

/// A stream that was reset takes nothing more, and is reset by one command with the code given.
pub proof fn law_reset_stream_takes_nothing(
    send: &mut SendStream,
    code: VarInt,
    reset: Result<BridgeCommand, ClosedStream>,
    buf: &[u8],
    written: Result<BridgeCommand, WriteError>,
    later: &mut SendStream,
    code_again: VarInt,
    again: Result<BridgeCommand, ClosedStream>,
)
    requires
        call_ensures(SendStream::reset, (send, code), reset),
        call_ensures(SendStream::write, (&*final(send), buf), written),
        *old(later) == *final(send),
        call_ensures(SendStream::reset, (later, code_again), again),
    ensures
        !old(send)@.finished ==> (reset matches Ok(
            BridgeCommand::StreamShutdownWrite { conn_id, stream_id, error_code },
        ) && conn_id == old(send)@.conn_id && stream_id == old(send)@.stream_id && error_code
            == code@),
        old(send)@.finished ==> reset is Err,
        written == Err::<BridgeCommand, WriteError>(WriteError::ClosedStream),
        again is Err,
{
}

/// A stream that was shut down takes nothing more, and is finished by one command without bytes.
pub proof fn law_shut_down_stream_takes_nothing(
    send: &mut SendStream,
    shut: Result<BridgeCommand, BrokenPipe>,
    buf: &[u8],
    written: Result<BridgeCommand, WriteError>,
    later: &mut SendStream,
    polled: Result<Option<BridgeCommand>, BrokenPipe>,
)
    requires
        call_ensures(SendStream::poll_shutdown, (send,), shut),
        call_ensures(SendStream::write, (&*final(send), buf), written),
        *old(later) == *final(send),
        call_ensures(SendStream::poll_write, (later, buf), polled),
    ensures
        !old(send)@.finished ==> (shut matches Ok(cmd) && writes(
            cmd,
            old(send)@.conn_id,
            old(send)@.stream_id,
            Seq::empty(),
            true,
        )),
        old(send)@.finished ==> (shut matches Err(e) && e.message@ == "stream already closed"@),
        written == Err::<BridgeCommand, WriteError>(WriteError::ClosedStream),
        polled matches Err(e) && e.message@ == "stream finished"@,
{
}

/// A stream that is dropped is finished if it has not ended, and left alone if it has.
pub proof fn law_dropped_stream_is_finished(send: &mut SendStream, dropped: Option<BridgeCommand>)
    requires
        call_ensures(SendStream::on_drop, (send,), dropped),
    ensures
        !old(send)@.finished ==> (dropped matches Some(cmd) && writes(
            cmd,
            old(send)@.conn_id,
            old(send)@.stream_id,
            Seq::empty(),
            true,
        )),
        old(send)@.finished ==> dropped is None,
        final(send)@.finished,
{
}

/// A polled write asks for its bytes once: the poll that follows it asks for nothing, and the first
/// poll after the answer asks again. No poll and no answer ends the stream.
pub proof fn law_polled_write_asks_once(
    first: &mut SendStream,
    second: &mut SendStream,
    answered: &mut SendStream,
    third: &mut SendStream,
    buf: &[u8],
    other: &[u8],
    answer: Option<Result<usize, WriteError>>,
    result: Poll<Result<usize, WriteError>>,
    r1: Result<Option<BridgeCommand>, BrokenPipe>,
    r2: Result<Option<BridgeCommand>, BrokenPipe>,
    r3: Result<Option<BridgeCommand>, BrokenPipe>,
)
    requires
        !old(first)@.finished,
        !old(first)@.writing,
        call_ensures(SendStream::poll_write, (first, buf), r1),
        *old(second) == *final(first),
        call_ensures(SendStream::poll_write, (second, other), r2),
        *old(answered) == *final(second),
        call_ensures(SendStream::on_poll_answer, (answered, answer), result),
        *old(third) == *final(answered),
        call_ensures(SendStream::poll_write, (third, other), r3),
    ensures
        r1 matches Ok(Some(cmd)) && writes(
            cmd,
            old(first)@.conn_id,
            old(first)@.stream_id,
            buf@,
            false,
        ),
        r2 == Ok::<Option<BridgeCommand>, BrokenPipe>(None),
        r3 matches Ok(Some(cmd)) && writes(
            cmd,
            old(first)@.conn_id,
            old(first)@.stream_id,
            other@,
            false,
        ),
        !final(third)@.finished,
{
}

/// What the engine says of a write is what the write says: how many bytes were taken if any were,
/// the error if there was one, a lost connection if there was no answer; and where no byte was
/// taken, the write goes on.
pub proof fn law_write_yields_the_answer(
    answer: Option<Result<usize, WriteError>>,
    step: WriteStep,
    send: &mut SendStream,
    polled: Poll<Result<usize, WriteError>>,
)
    requires
        call_ensures(SendStream::on_write_answer, (answer,), step),
        call_ensures(SendStream::on_poll_answer, (send, answer), polled),
    ensures
        answer matches Some(Ok(n)) && n > 0 ==> step == WriteStep::Done(answer->0) && polled
            == Poll::Ready(answer->0),
        answer == Some(Ok::<usize, WriteError>(0)) ==> step is WaitWritable && polled is Pending,
        answer matches Some(Err(e)) ==> step == WriteStep::Done(answer->0) && polled == Poll::Ready(
            answer->0,
        ),
        answer is None ==> step == WriteStep::Done(
            Err(WriteError::ConnectionLost(ConnectionError::LocallyClosed)),
        ) && polled == Poll::<Result<usize, WriteError>>::Ready(
            Err(WriteError::ConnectionLost(ConnectionError::LocallyClosed)),
        ),
{
}

/// A write of a whole buffer starts with all of it.
pub proof fn law_write_all_starts_at_the_front(
    send: SendStream,
    buf: &[u8],
    op: WriteAll,
    next: Option<usize>,
)
    requires
        call_ensures(SendStream::write_all, (&send, buf), op),
        call_ensures(WriteAll::next, (&op,), next),
    ensures
        op@.len == buf@.len(),
        op@.offset == 0,
        buf@.len() > 0 ==> next == Some(0usize),
        buf@.len() == 0 ==> next is None,
{
}

/// A write of a whole buffer goes on right behind the bytes that were taken, as long as there are
/// any left, and is over exactly when there are none.
pub proof fn law_write_all_goes_on_behind_what_was_taken(
    op: &mut WriteAll,
    at: Option<usize>,
    n: usize,
    next: Option<usize>,
)
    requires
        call_ensures(WriteAll::next, (&*old(op),), at),
        call_ensures(WriteAll::wrote, (op, n), ()),
        call_ensures(WriteAll::next, (&*final(op),), next),
    ensures
        old(op)@.offset + n <= old(op)@.len ==> final(op)@.offset == old(op)@.offset + n,
        final(op)@.len == old(op)@.len,
        at matches Some(start) ==> {
            &&& start + n < old(op)@.len ==> (next matches Some(then) && then == start + n)
            &&& start + n >= old(op)@.len ==> next is None
        },
        at is None ==> next is None,
{
}

/// Two writes of so many bytes are as good as one of their sum.
pub proof fn law_writes_add_up(
    first: &mut WriteAll,
    second: &mut WriteAll,
    whole: &mut WriteAll,
    m: usize,
    n: usize,
    sum: usize,
    after_two: Option<usize>,
    after_one: Option<usize>,
)
    requires
        sum == m + n,
        call_ensures(WriteAll::wrote, (first, m), ()),
        *old(second) == *final(first),
        call_ensures(WriteAll::wrote, (second, n), ()),
        *old(whole) == *old(first),
        call_ensures(WriteAll::wrote, (whole, sum), ()),
        call_ensures(WriteAll::next, (&*final(second),), after_two),
        call_ensures(WriteAll::next, (&*final(whole),), after_one),
    ensures
        old(first)@.offset <= old(first)@.len ==> after_two == after_one,
{
}

/// The urgency of a stream is its priority where that is one of the urgencies, and the nearest one
/// elsewhere; it never falls as the priority rises.
pub proof fn law_urgency_is_the_nearest(
    send: SendStream,
    low: i32,
    high: i32,
    for_low: Result<BridgeCommand, ClosedStream>,
    for_high: Result<BridgeCommand, ClosedStream>,
)
    requires
        low <= high,
        !send@.finished,
        call_ensures(SendStream::set_priority, (&send, low), for_low),
        call_ensures(SendStream::set_priority, (&send, high), for_high),
    ensures
        for_low matches Ok(BridgeCommand::StreamSetPriority { conn_id, stream_id, urgency }) && {
            &&& conn_id == send@.conn_id
            &&& stream_id == send@.stream_id
            &&& 0 <= low <= 255 ==> urgency == low
            &&& low < 0 ==> urgency == 0
            &&& low > 255 ==> urgency == 255
            &&& for_high matches Ok(BridgeCommand::StreamSetPriority { urgency: above, .. })
                && urgency <= above
        },
{
}

/// Whoever waits for a stream to become writable waits for the signal that the engine's report on
/// the stream gives, and learns at once of a connection that is lost.
pub proof fn law_writable_report_reaches_the_waiter(
    send: SendStream,
    waiting: &mut BridgeHandle,
    signal: Result<SignalRef, WriteError>,
    handler: BridgeTransportHandler,
    reported: &mut BridgeHandle,
    given: Option<SignalRef>,
)
    requires
        call_ensures(SendStream::wait_writable, (&send, waiting), signal),
        *old(reported) == *final(waiting),
        call_ensures(
            BridgeTransportHandler::on_stream_writable,
            (&handler, reported, Some(send@.conn_id), send@.stream_id),
            given,
        ),
    ensures
        signal matches Ok(s) ==> given == Some(s),
        !old(waiting)@.conn_states.contains_key(send@.conn_id) ==> (signal matches Err(e) && e@
            == WriteErrorView::ConnectionLost(ConnectionErrorView::LocallyClosed)),
        old(waiting)@.conn_states.contains_key(send@.conn_id) ==> ({
            let conn = old(waiting)@.conns[old(waiting)@.conn_states[send@.conn_id] as usize as int];
            &&& conn.closed is None ==> signal is Ok
            &&& conn.closed matches Some(why) ==> (signal matches Err(e) && e@
                == WriteErrorView::ConnectionLost(why))
        }),
{
}

/// A wait for a stream to become writable ends with the error of a connection that was closed
/// meanwhile, and without an error on one that was not.
pub proof fn law_writable_wait_ends_with_the_connection(
    handle: BridgeHandle,
    waited: SignalRef,
    r: Result<(), WriteError>,
)
    requires
        call_ensures(SendStream::writable_again, (&handle, waited), r),
    ensures
        handle@.conns[waited.slot as int].closed is None ==> r is Ok,
        handle@.conns[waited.slot as int].closed matches Some(why) ==> (r matches Err(e) && e@
            == WriteErrorView::ConnectionLost(why)),
{
}

} // verus!
