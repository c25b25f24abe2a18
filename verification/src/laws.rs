//! What holds of every endpoint, stated over its abstract state and proved
//! from the transitions that the operations are specified by.

use vstd::prelude::*;
use crate::accumulator::{window, window_len};
use crate::error::GatewayError;
use crate::model::{total, GatewayView, Strategy};

verus! {

/// Every operation keeps the state valid.
pub proof fn law_steps_keep_valid(s: GatewayView, bytes: Seq<u8>, capacity: nat)
    requires
        s.valid(),
    ensures
        s.write(bytes).valid(),
        s.close().valid(),
        s.strategy == Strategy::Parked ==> s.read(capacity).valid(),
        GatewayView::fresh(s.strategy).valid(),
{
}

/// Writes made while the endpoint is open add up, in call order, to the
/// content: it is what was there before, followed by the written slices
/// joined one after the other.
pub proof fn law_writes_accumulate(s: GatewayView, chunks: Seq<Seq<u8>>)
    requires
        !s.closed,
    ensures
        s.write_all(chunks) == (GatewayView { content: s.content + chunks.flatten(), ..s }),
    decreases chunks.len(),
{
    if chunks.len() == 0 {
        assert(s.content + chunks.flatten() =~= s.content);
    } else {
        law_writes_accumulate(s.write(chunks.first()), chunks.drop_first());
        assert((s.content + chunks.first()) + chunks.drop_first().flatten() =~= s.content
            + chunks.flatten());
    }
}

/// The content only grows, and only at its end: after any operation the old
/// content is still there, as the beginning of the new one.
pub proof fn law_content_only_grows(s: GatewayView, bytes: Seq<u8>, capacity: nat)
    ensures
        s.content.is_prefix_of(s.write(bytes).content),
        s.close().content == s.content,
        s.read(capacity).content == s.content,
{
    assert(s.content.is_prefix_of(s.content + bytes));
}

/// The cursor never moves back, and it moves only when a read hands out
/// bytes: by as many as were handed out.
pub proof fn law_cursor_only_advances(s: GatewayView, bytes: Seq<u8>, capacity: nat)
    ensures
        s.write(bytes).cursor == s.cursor,
        s.close().cursor == s.cursor,
        s.read(capacity).cursor == s.cursor + s.readable(capacity),
        s.valid() && s.closed ==> s.read_bytes(capacity).unwrap().len() == s.readable(capacity)
            && s.readable(capacity) <= capacity,
{
}

/// For every sequence of writes to a new endpoint followed by a close, what
/// the consumer is given is exactly the written slices joined in call
/// order: as the snapshot where the endpoint keeps its content, as the
/// message where the close sends it away.
pub proof fn law_close_publishes_writes(strategy: Strategy, chunks: Seq<Seq<u8>>)
    ensures
        ({
            let end = GatewayView::fresh(strategy).write_all(chunks).close();
            &&& end.content == chunks.flatten()
            &&& strategy != Strategy::OneShot ==> end.snapshot() == Some(chunks.flatten())
            &&& strategy == Strategy::OneShot ==> end.message() == Some(chunks.flatten())
                && end.stored() == Seq::<u8>::empty()
        }),
{
    let start = GatewayView::fresh(strategy);
    law_writes_accumulate(start, chunks);
    assert(start.content + chunks.flatten() =~= chunks.flatten());
}

/// While the endpoint is open nobody is given the content. Once it is closed
/// the content has exactly one owner: the endpoint, which then answers
/// queries with it, or the message, and then the endpoint stores nothing.
pub proof fn law_content_has_one_owner(s: GatewayView)
    ensures
        !s.closed ==> s.snapshot() is None && s.message() is None && s.stored() == s.content,
        s.closed ==> (s.snapshot() is Some) != (s.message() is Some),
        s.snapshot() is Some ==> s.snapshot() == Some(s.content) && s.stored() == s.content,
        s.message() is Some ==> s.message() == Some(s.content) && s.stored() == Seq::<u8>::empty(),
{
}

/// Closing twice is closing once: the second close changes nothing, and in
/// particular it neither changes the content nor wakes anyone again.
pub proof fn law_close_idempotent(s: GatewayView)
    ensures
        s.close().close() == s.close(),
        s.close().content == s.content,
        s.closed && s.valid() ==> s.close() == s,
{
}

/// A close with nobody parked wakes nobody.
pub proof fn law_close_wakes_only_the_parked(s: GatewayView)
    ensures
        !s.waiting ==> s.close().wakes == s.wakes,
        s.waiting ==> s.close().wakes == s.wakes + 1,
{
}

/// No write succeeds once the endpoint is closed: it fails with
/// `ClosedEndpoint` and leaves the state, content included, as it was.
pub proof fn law_closed_rejects_writes(s: GatewayView, bytes: Seq<u8>)
    requires
        s.closed,
    ensures
        s.write_result(bytes) == Err::<usize, GatewayError>(GatewayError::ClosedEndpoint),
        s.write(bytes) == s,
        s.close().write(bytes) == s.close(),
{
}

/// Once closed, always closed, and the content is final: no operation opens
/// the endpoint again or changes a byte of what it has accepted.
pub proof fn law_closed_is_final(s: GatewayView, bytes: Seq<u8>, capacity: nat)
    requires
        s.closed,
    ensures
        s.write(bytes).closed && s.write(bytes).content == s.content,
        s.close().closed && s.close().content == s.content,
        s.read(capacity).closed && s.read(capacity).content == s.content,
{
}

/// A read while the endpoint is open is suspended and leaves its handle
/// parked; the close wakes that handle, once, and the same read issued again
/// then resolves to the first bytes of the content, which is all that was
/// written before the close.
pub proof fn law_close_resolves_parked_read(s: GatewayView, capacity: nat)
    requires
        s.valid(),
        s.strategy == Strategy::Parked,
        !s.closed,
    ensures
        s.read_bytes(capacity) is None,
        s.read(capacity).waiting,
        s.read(capacity).content == s.content,
        !s.read(capacity).close().waiting,
        s.read(capacity).close().wakes == 1,
        s.read(capacity).close().read_bytes(capacity) == Some(window(s.content, 0, capacity)),
        capacity >= s.content.len() ==> s.read(capacity).close().read_bytes(capacity) == Some(
            s.content,
        ),
{
    if capacity >= s.content.len() {
        assert(window(s.content, 0, capacity) =~= s.content);
    }
}

/// Repeated reads of a closed endpoint hand out its content piece by piece
/// and in order: joined, the pieces are the bytes from where the cursor
/// stood, as many as the rooms of the reads add up to, and the cursor ends
/// behind them.
pub proof fn law_reads_drain_in_order(s: GatewayView, rooms: Seq<nat>)
    requires
        s.valid(),
        s.strategy == Strategy::Parked,
        s.closed,
    ensures
        s.read_all_bytes(rooms) == window(s.content, s.cursor, total(rooms)),
        s.read_all(rooms) == (GatewayView {
            cursor: s.cursor + window_len(s.content.len(), s.cursor, total(rooms)),
            ..s
        }),
    decreases rooms.len(),
{
    if rooms.len() == 0 {
        assert(window(s.content, s.cursor, 0) =~= Seq::<u8>::empty());
    } else {
        let next = s.read(rooms.first());
        law_reads_drain_in_order(next, rooms.drop_first());
        assert(window(s.content, s.cursor, rooms.first()) + window(
            next.content,
            next.cursor,
            total(rooms.drop_first()),
        ) =~= window(s.content, s.cursor, total(rooms)));
    }
}

/// Reads with enough room between them hand out the whole rest of the
/// content, and every read after that hands out no bytes: the end of the
/// stream.
pub proof fn law_reads_reach_end_of_stream(s: GatewayView, rooms: Seq<nat>, capacity: nat)
    requires
        s.valid(),
        s.strategy == Strategy::Parked,
        s.closed,
        total(rooms) >= s.content.len() - s.cursor,
    ensures
        s.read_all_bytes(rooms) == s.content.subrange(s.cursor as int, s.content.len() as int),
        s.read_all(rooms).cursor == s.content.len(),
        s.read_all(rooms).read_bytes(capacity) == Some(Seq::<u8>::empty()),
        s.read_all(rooms).read(capacity) == s.read_all(rooms),
{
    law_reads_drain_in_order(s, rooms);
    assert(window(s.content, s.cursor, total(rooms)) =~= s.content.subrange(
        s.cursor as int,
        s.content.len() as int,
    ));
}

} // verus!
