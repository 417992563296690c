//! What the receiving half of a stream does, from the arguments and results of its functions alone.
use vstd::prelude::*;

use crate::bridge::{BridgeHandle, BridgeTransportHandler, SignalRef};
use crate::command::BridgeCommand;
use crate::error::{ConnectionError, ConnectionErrorView};
use crate::recv_stream::{
    ReadAnswer, ReadError, ReadErrorView, ReadExact, ReadExactError, ReadStart, ReadStep,
    ReadToEnd, ReadToEndError, RecvStream, RecvStreamView,
};
use crate::send_stream::ClosedStream;
use crate::types::{Poll, StreamId, VarInt};

verus! {

/// The bytes stand at the start of the buffer, and the rest of it is as it was.
pub open spec fn at_the_start(before: Seq<u8>, after: Seq<u8>, bytes: Seq<u8>) -> bool {
    &&& after.len() == before.len()
    &&& bytes.len() <= before.len()
    &&& forall|i: int| 0 <= i < bytes.len() ==> #[trigger] after[i] == bytes[i]
    &&& forall|i: int| bytes.len() <= i < before.len() ==> #[trigger] after[i] == before[i]
}

/// The lesser of two numbers.
pub open spec fn lesser(a: nat, b: nat) -> nat {
    if a <= b {
        a
    } else {
        b
    }
}

/// The stream is still the one that it was.
pub open spec fn same_stream(before: RecvStreamView, after: RecvStreamView) -> bool {
    before.conn_id == after.conn_id && before.stream_id == after.stream_id
}

/// A read started as it has to on the stream, with the buffer before and after: kept bytes are
/// handed out, and else the engine is asked, unless it has been or the stream has ended.
pub open spec fn started_right(
    before: RecvStreamView,
    after: RecvStreamView,
    buf: Seq<u8>,
    filled: Seq<u8>,
    start: ReadStart,
) -> bool {
    let n = lesser(before.kept.len(), buf.len());
    &&& at_the_start(buf, filled, before.kept.take(n as int))
    &&& after.kept == before.kept.skip(n as int)
    &&& same_stream(before, after)
    &&& after.all_data_read == before.all_data_read
    &&& before.kept.len() > 0 ==> {
        &&& start matches ReadStart::Done(Some(count)) && count == n
        &&& after.reading == before.reading
    }
    &&& before.kept.len() == 0 && before.all_data_read ==> {
        &&& start matches ReadStart::Done(None)
        &&& after.reading == before.reading
    }
    &&& before.kept.len() == 0 && !before.all_data_read && before.reading ==> {
        &&& start is Await
        &&& after.reading
    }
    &&& before.kept.len() == 0 && !before.all_data_read && !before.reading ==> {
        &&& start matches ReadStart::Send(BridgeCommand::StreamRead { conn_id, stream_id, max_len })
        &&& conn_id == before.conn_id
        &&& stream_id == before.stream_id
        &&& max_len == buf.len()
        &&& after.reading
    }
}

/// A new stream has the identifier that it was made with, and its first read asks the engine for as
/// many bytes as the buffer holds.
pub proof fn law_new_stream_asks_the_engine(
    conn: u64,
    stream: u64,
    made: RecvStream,
    id: StreamId,
    raw: u64,
    recv: &mut RecvStream,
    buf: &mut [u8],
    start: ReadStart,
)
    requires
        call_ensures(RecvStream::new, (conn, stream), made),
        call_ensures(RecvStream::id, (&made,), id),
        call_ensures(StreamId::into_inner, (id,), raw),
        *old(recv) == made,
        old(buf)@.len() <= usize::MAX,
        call_ensures(RecvStream::read, (recv, buf), start),
    ensures
        raw == stream,
        start matches ReadStart::Send(BridgeCommand::StreamRead { conn_id, stream_id, max_len })
            && conn_id == conn && stream_id == stream && max_len == old(buf)@.len(),
        final(buf)@ == old(buf)@,
{
    assert(final(buf)@ =~= old(buf)@);
}

/// A read hands out kept bytes first, then the end of a stream that has ended, and asks the engine
/// elsewhere, unless an answer is awaited.
pub proof fn law_read_starts_right(recv: &mut RecvStream, buf: &mut [u8], start: ReadStart)
    requires
        call_ensures(RecvStream::read, (recv, buf), start),
        old(buf)@.len() <= usize::MAX,
    ensures
        started_right(old(recv)@, final(recv)@, old(buf)@, final(buf)@, start),
{
    assert(final(recv)@.kept =~= old(recv)@.kept.skip(
        lesser(old(recv)@.kept.len(), old(buf)@.len()) as int,
    ));
}

/// A polled read starts as any read does.
pub proof fn law_polled_read_starts_right(recv: &mut RecvStream, buf: &mut [u8], start: ReadStart)
    requires
        call_ensures(RecvStream::poll_read, (recv, buf), start),
        old(buf)@.len() <= usize::MAX,
    ensures
        started_right(old(recv)@, final(recv)@, old(buf)@, final(buf)@, start),
{
    assert(final(recv)@.kept =~= old(recv)@.kept.skip(
        lesser(old(recv)@.kept.len(), old(buf)@.len()) as int,
    ));
}

/// The bytes of an answer are handed out as far as the buffer holds them, the others are kept, and
/// the stream ends with the answer exactly if the answer says so. An answer without bytes is the
/// end of the stream, or nothing yet.
pub proof fn law_answer_is_handed_out(
    recv: &mut RecvStream,
    buf: &mut [u8],
    data: Vec<u8>,
    fin: bool,
    step: ReadStep,
)
    requires
        old(buf)@.len() <= usize::MAX,
        call_ensures(
            RecvStream::on_read_answer,
            (recv, buf, Some(Ok::<(Vec<u8>, bool), ReadError>((data, fin)))),
            step,
        ),
    ensures
        ({
            let came = old(recv)@.kept + data@;
            let n = lesser(came.len(), old(buf)@.len());
            &&& at_the_start(old(buf)@, final(buf)@, came.take(n as int))
            &&& final(recv)@.kept == came.skip(n as int)
            &&& came.len() > 0 ==> (step matches ReadStep::Done(Ok(Some(count))) && count == n)
            &&& came.len() == 0 && fin ==> step == ReadStep::Done(Ok(None))
            &&& came.len() == 0 && !fin ==> step is WaitReadable
        }),
        final(recv)@.all_data_read == (old(recv)@.all_data_read || fin),
        !final(recv)@.reading,
        same_stream(old(recv)@, final(recv)@),
{
    let came = old(recv)@.kept + data@;
    assert(final(recv)@.kept =~= came.skip(lesser(came.len(), old(buf)@.len()) as int));
}

/// A read that fails brings nothing, loses nothing and does not end the stream.
pub proof fn law_failed_read_changes_nothing(
    recv: &mut RecvStream,
    buf: &mut [u8],
    answer: ReadAnswer,
    step: ReadStep,
)
    requires
        !(answer matches Some(Ok(_))),
        call_ensures(RecvStream::on_read_answer, (recv, buf, answer), step),
    ensures
        final(buf)@ == old(buf)@,
        final(recv)@.kept == old(recv)@.kept,
        final(recv)@.all_data_read == old(recv)@.all_data_read,
        !final(recv)@.reading,
        answer matches Some(Err(e)) ==> step == ReadStep::Done(Err(e)),
        answer is None ==> step == ReadStep::Done(
            Err(ReadError::ConnectionLost(ConnectionError::LocallyClosed)),
        ),
{
    assert(final(buf)@ =~= old(buf)@);
    assert(final(recv)@.kept =~= old(recv)@.kept);
}

/// A polled read makes of an answer what any read makes of it; the end of the stream is a read of
/// no bytes.
pub proof fn law_polled_read_yields_the_same(
    recv: &mut RecvStream,
    polled: &mut RecvStream,
    buf: &mut [u8],
    other: &mut [u8],
    answer: ReadAnswer,
    step: ReadStep,
    result: Poll<Result<usize, ReadError>>,
)
    requires
        *old(polled) == *old(recv),
        old(other)@ == old(buf)@,
        call_ensures(RecvStream::on_read_answer, (recv, buf, answer), step),
        call_ensures(RecvStream::on_poll_answer, (polled, other, answer), result),
    ensures
        final(polled)@ == final(recv)@,
        final(other)@ == final(buf)@,
        step matches ReadStep::Done(Ok(Some(n))) ==> result == Poll::Ready(
            Ok::<usize, ReadError>(n),
        ),
        step == ReadStep::Done(Ok(None)) ==> result == Poll::Ready(Ok::<usize, ReadError>(0)),
        step matches ReadStep::Done(Err(e)) ==> result == Poll::Ready(Err::<usize, ReadError>(e)),
        step is WaitReadable ==> result is Pending,
{
}

/// As long as no answer has brought the end of the stream, the read that follows an answer which was
/// handed out whole asks the engine again.
pub proof fn law_read_goes_on_until_the_end(
    recv: &mut RecvStream,
    buf: &mut [u8],
    data: Vec<u8>,
    step: ReadStep,
    later: &mut RecvStream,
    next: &mut [u8],
    start: ReadStart,
)
    requires
        !old(recv)@.all_data_read,
        old(recv)@.kept.len() + data@.len() <= old(buf)@.len(),
        call_ensures(
            RecvStream::on_read_answer,
            (recv, buf, Some(Ok::<(Vec<u8>, bool), ReadError>((data, false)))),
            step,
        ),
        *old(later) == *final(recv),
        call_ensures(RecvStream::read, (later, next), start),
    ensures
        start matches ReadStart::Send(BridgeCommand::StreamRead { conn_id, stream_id, max_len })
            && conn_id == old(recv)@.conn_id && stream_id == old(recv)@.stream_id,
{
}

/// A stream that was stopped hands out nothing more and asks for nothing more; it is stopped by one
/// command, with the code given. One that had ended is left as it was.
pub proof fn law_stopped_stream_is_silent(
    recv: &mut RecvStream,
    code: VarInt,
    stopped: Result<BridgeCommand, ClosedStream>,
    later: &mut RecvStream,
    buf: &mut [u8],
    start: ReadStart,
    again: &mut RecvStream,
    code_again: VarInt,
    stopped_again: Result<BridgeCommand, ClosedStream>,
)
    requires
        call_ensures(RecvStream::stop, (recv, code), stopped),
        *old(later) == *final(recv),
        call_ensures(RecvStream::read, (later, buf), start),
        *old(again) == *final(recv),
        call_ensures(RecvStream::stop, (again, code_again), stopped_again),
    ensures
        !old(recv)@.all_data_read ==> {
            &&& stopped matches Ok(
                BridgeCommand::StreamShutdownRead { conn_id, stream_id, error_code },
            ) && conn_id == old(recv)@.conn_id && stream_id == old(recv)@.stream_id && error_code
                == code@
            &&& start == ReadStart::Done(None)
            &&& final(buf)@ == old(buf)@
        },
        old(recv)@.all_data_read ==> stopped is Err && final(recv)@ == old(recv)@,
        !(start is Send),
        stopped_again is Err,
{
    assert(!old(recv)@.all_data_read ==> final(buf)@ =~= old(buf)@);
}

/// A stream that is dropped is stopped with the code zero if it has not ended, and left alone if it
/// has.
pub proof fn law_dropped_stream_is_stopped(recv: &mut RecvStream, dropped: Option<BridgeCommand>)
    requires
        call_ensures(RecvStream::on_drop, (recv,), dropped),
    ensures
        !old(recv)@.all_data_read ==> (dropped matches Some(
            BridgeCommand::StreamShutdownRead { conn_id, stream_id, error_code },
        ) && conn_id == old(recv)@.conn_id && stream_id == old(recv)@.stream_id && error_code == 0),
        old(recv)@.all_data_read ==> dropped is None,
        final(recv)@.all_data_read,
{
}

/// Whoever waits for a stream to become readable waits for the signal that the engine's report on
/// the stream gives, and learns at once of a connection that is lost.
pub proof fn law_readable_report_reaches_the_waiter(
    recv: RecvStream,
    waiting: &mut BridgeHandle,
    signal: Result<SignalRef, ReadError>,
    handler: BridgeTransportHandler,
    reported: &mut BridgeHandle,
    given: Option<SignalRef>,
)
    requires
        call_ensures(RecvStream::wait_readable, (&recv, waiting), signal),
        *old(reported) == *final(waiting),
        call_ensures(
            BridgeTransportHandler::on_stream_readable,
            (&handler, reported, Some(recv@.conn_id), recv@.stream_id),
            given,
        ),
    ensures
        signal matches Ok(s) ==> given == Some(s),
        !old(waiting)@.conn_states.contains_key(recv@.conn_id) ==> (signal matches Err(e) && e@
            == ReadErrorView::ConnectionLost(ConnectionErrorView::LocallyClosed)),
        old(waiting)@.conn_states.contains_key(recv@.conn_id) ==> ({
            let conn = old(waiting)@.conns[old(waiting)@.conn_states[recv@.conn_id] as usize as int];
            &&& conn.closed is None ==> signal is Ok
            &&& conn.closed matches Some(why) ==> (signal matches Err(e) && e@
                == ReadErrorView::ConnectionLost(why))
        }),
{
}

/// A wait for a stream to become readable ends with the error of a connection that was closed
/// meanwhile, and without an error on one that was not.
pub proof fn law_readable_wait_ends_with_the_connection(
    handle: BridgeHandle,
    waited: SignalRef,
    r: Result<(), ReadError>,
)
    requires
        call_ensures(RecvStream::readable_again, (&handle, waited), r),
    ensures
        handle@.conns[waited.slot as int].closed is None ==> r is Ok,
        handle@.conns[waited.slot as int].closed matches Some(why) ==> (r matches Err(e) && e@
            == ReadErrorView::ConnectionLost(why)),
{
}

/// A read of exactly a buffer starts with all of it.
pub proof fn law_read_exact_starts_at_the_front(
    recv: RecvStream,
    len: usize,
    op: ReadExact,
    next: Option<usize>,
)
    requires
        call_ensures(RecvStream::read_exact, (&recv, len), op),
        call_ensures(ReadExact::next, (&op,), next),
    ensures
        op@.len == len,
        op@.offset == 0,
        len > 0 ==> next == Some(0usize),
        len == 0 ==> next is None,
{
}

/// A read of exactly a buffer goes on right behind the bytes that were read, and is over exactly
/// when the buffer is full; the end of the stream and an error end it early, and the first of them
/// says how many bytes there were.
pub proof fn law_read_exact_goes_on_behind_what_was_read(
    op: &mut ReadExact,
    at: Option<usize>,
    result: Result<Option<usize>, ReadError>,
    r: Option<ReadExactError>,
    next: Option<usize>,
)
    requires
        call_ensures(ReadExact::next, (&*old(op),), at),
        call_ensures(ReadExact::on_read, (op, result), r),
        call_ensures(ReadExact::next, (&*final(op),), next),
    ensures
        final(op)@.len == old(op)@.len,
        result matches Ok(Some(n)) ==> {
            &&& r is None
            &&& final(op)@.offset == old(op)@.offset + n
            &&& at matches Some(start) ==> {
                &&& start + n < old(op)@.len ==> (next matches Some(then) && then == start + n)
                &&& start + n == old(op)@.len ==> next is None
            }
        },
        result == Ok::<Option<usize>, ReadError>(None) ==> {
            &&& r matches Some(ReadExactError::FinishedEarly(count))
            &&& count == old(op)@.offset
            &&& at matches Some(start) ==> count == start
        },
        result matches Err(e) ==> r == Some(ReadExactError::ReadError(e)),
        result is Err || result == Ok::<Option<usize>, ReadError>(None) ==> next == at,
{
}

/// A read to the end of a stream starts with nothing.
pub proof fn law_read_to_end_starts_with_nothing(recv: RecvStream, limit: usize, op: ReadToEnd)
    requires
        call_ensures(RecvStream::read_to_end, (&recv, limit), op),
    ensures
        op@.data.len() == 0,
        op@.size_limit == limit,
{
}

/// A read to the end of a stream adds the bytes of each read to those before, is refused as soon as
/// there are more of them than the limit, yields all of them at the end of the stream, and fails
/// with the error of a read.
pub proof fn law_read_to_end_gathers_the_bytes(
    op: &mut ReadToEnd,
    buf: &[u8],
    result: Result<Option<usize>, ReadError>,
    r: Poll<Result<Vec<u8>, ReadToEndError>>,
)
    requires
        result matches Ok(Some(n)) ==> n <= buf@.len(),
        call_ensures(ReadToEnd::on_read, (op, buf, result), r),
    ensures
        final(op)@.size_limit == old(op)@.size_limit,
        result matches Ok(Some(n)) ==> {
            &&& final(op)@.data == old(op)@.data + buf@.take(n as int)
            &&& old(op)@.data.len() + n <= old(op)@.size_limit ==> r is Pending
            &&& old(op)@.data.len() + n > old(op)@.size_limit ==> r == Poll::<
                Result<Vec<u8>, ReadToEndError>,
            >::Ready(Err(ReadToEndError::TooLong))
        },
        result == Ok::<Option<usize>, ReadError>(None) ==> (r matches Poll::Ready(Ok(data)) && data@
            == old(op)@.data),
        result matches Err(e) ==> r == Poll::<Result<Vec<u8>, ReadToEndError>>::Ready(
            Err(ReadToEndError::Read(e)),
        ),
{
}

} // verus!
