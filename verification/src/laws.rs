//! What holds of the stream operations over any run of them.
//!
//! Each operation in [`crate::io`] says what it does in one step, and that
//! the table it leaves is one that the table it found can advance to. The
//! laws here follow a handle through any number of such steps.

use crate::io::Error;
use crate::io::Pollable;
use crate::stream::StreamError;
use crate::table::HostPollable;
use crate::table::Kind;
use crate::table::Resource;
use crate::table::Table;
use vstd::prelude::*;

verus! {

/// A handle that names no resource of the kind asked for gives a broken
/// stream and never a fault: no lookup fails for want of room, and every
/// other failure of the table is the guest's to recover from.
pub proof fn lemma_failed_lookup_is_broken_stream<I, O>(
    table: &Table<I, O>,
    handle: u32,
    kind: Kind,
)
    requires
        table.lookup(handle, kind) is Err,
    ensures
        Error::of_table_error(table.lookup(handle, kind)->Err_0) == Error::Stream(StreamError {  }),
{
}

/// A read never hands back more than a chunk, nor more than was asked for,
/// however many bytes were asked for.
pub proof fn lemma_read_is_bounded<I, O>(
    before: &Table<I, O>,
    after: &Table<I, O>,
    stream: u32,
    len: u64,
    bytes: Seq<u8>,
    end: bool,
)
    requires
        crate::io::read_post(before, after, stream, len, Ok((bytes, end))),
    ensures
        bytes.len() <= crate::io::MAX_READ_CHUNK,
        bytes.len() <= len,
{
}

/// A read that reports the end of a stream leaves the stream with nothing
/// more to give.
pub proof fn lemma_read_end_is_recorded<I, O>(
    before: &Table<I, O>,
    after: &Table<I, O>,
    stream: u32,
    len: u64,
    bytes: Seq<u8>,
)
    requires
        crate::io::read_post(before, after, stream, len, Ok((bytes, true))),
    ensures
        after.input_at_end(stream),
        after.live_at(stream, before.generation(stream)),
{
}

/// A skip that reports the end of a stream leaves the stream with nothing
/// more to give.
pub proof fn lemma_skip_end_is_recorded<I, O>(
    before: &Table<I, O>,
    after: &Table<I, O>,
    stream: u32,
    len: u64,
    count: u64,
)
    requires
        crate::io::skip_post(before, after, stream, len, Ok((count, true))),
    ensures
        after.input_at_end(stream),
        after.live_at(stream, before.generation(stream)),
{
}

/// End of stream is monotonic under `read`: once the end of a stream has
/// been reported, every read of it, after whatever else was done to the
/// table, reports the end again and hands back no bytes, until the stream
/// is deleted.
pub proof fn lemma_read_after_end_reports_end<I, O>(
    ended: &Table<I, O>,
    before: &Table<I, O>,
    after: &Table<I, O>,
    stream: u32,
    len: u64,
    outcome: Result<(Seq<u8>, bool), Error>,
)
    requires
        ended.input_at_end(stream),
        ended.advances_to(before),
        before.live_at(stream, ended.generation(stream)),
        crate::io::read_post(before, after, stream, len, outcome),
    ensures
        outcome matches Ok((bytes, end)) && end && bytes.len() == 0,
        after.input_at_end(stream),
{
    crate::table::lemma_end_of_stream_is_kept(ended, before, stream);
}

/// End of stream is monotonic under `skip`: once the end of a stream has
/// been reported, every skip on it reports the end again and drops
/// nothing, until the stream is deleted.
pub proof fn lemma_skip_after_end_reports_end<I, O>(
    ended: &Table<I, O>,
    before: &Table<I, O>,
    after: &Table<I, O>,
    stream: u32,
    len: u64,
    outcome: Result<(u64, bool), Error>,
)
    requires
        ended.input_at_end(stream),
        ended.advances_to(before),
        before.live_at(stream, ended.generation(stream)),
        crate::io::skip_post(before, after, stream, len, outcome),
    ensures
        outcome == Ok::<(u64, bool), Error>((0, true)),
        after.input_at_end(stream),

{
    crate::table::lemma_end_of_stream_is_kept(ended, before, stream);
}

/// A splice that reports the end of its source leaves the source with
/// nothing more to give.
pub proof fn lemma_splice_end_is_recorded<I, O>(
    before: &Table<I, O>,
    after: &Table<I, O>,
    src: u32,
    dst: u32,
    len: u64,
    count: u64,
)
    requires
        crate::io::splice_post(before, after, src, dst, len, Ok((count, true))),
    ensures
        after.input_at_end(src),
        after.live_at(src, before.generation(src)),
{
}

/// End of stream is monotonic under `splice`: once the end of a stream has
/// been reported, every splice from it to an output stream moves nothing
/// and reports the end again, until the stream is deleted.
pub proof fn lemma_splice_after_end_reports_end<I, O>(
    ended: &Table<I, O>,
    before: &Table<I, O>,
    after: &Table<I, O>,
    src: u32,
    dst: u32,
    len: u64,
    outcome: Result<(u64, bool), Error>,
)
    requires
        ended.input_at_end(src),
        ended.advances_to(before),
        before.live_at(src, ended.generation(src)),
        before.lookup(dst, Kind::Output) is Ok,
        crate::io::splice_post(before, after, src, dst, len, outcome),
    ensures
        outcome == Ok::<(u64, bool), Error>((0, true)),
        after.input_at_end(src),
{
    crate::table::lemma_end_of_stream_is_kept(ended, before, src);
}

/// A splice loses no byte: the bytes that waited at the source before it
/// are the bytes that the destination was given, followed by those that
/// wait afterwards.
pub proof fn lemma_splice_keeps_waiting_bytes<I, O>(
    before: &Table<I, O>,
    after: &Table<I, O>,
    src: u32,
    dst: u32,
    len: u64,
    count: u64,
    end: bool,
)
    requires
        before.input_pending(src).len() > 0,
        crate::io::splice_post(before, after, src, dst, len, Ok((count, end))),
    ensures
        count <= before.input_pending(src).len(),
        before.input_pending(src) == before.input_pending(src).take(count as int)
            + after.input_pending(src),
{
    assert(before.input_pending(src) =~= before.input_pending(src).take(count as int)
        + before.input_pending(src).skip(count as int));
}

/// A readiness handle whose stream has been deleted is never ready again:
/// at every later time at which the readiness handle is still in the table,
/// a poll of it answers that it is not ready, whatever has been put into
/// the slot of the stream since.
pub proof fn lemma_poll_after_delete_is_not_ready<I, O>(
    deleted: &Table<I, O>,
    later: &Table<I, O>,
    pollable: Pollable,
    reference: HostPollable,
    outcome: Result<bool, Error>,
)
    requires
        deleted.retired(reference.target, reference.generation),
        deleted.advances_to(later),
        later.resource(pollable) == Some(Resource::<I, O>::Pollable(reference)),
        crate::io::poll_post(later, pollable, outcome),
    ensures
        outcome == Ok::<bool, Error>(false),
{
    crate::table::lemma_retired_stays_retired(
        deleted,
        later,
        reference.target,
        reference.generation,
    );
}

/// The bytes that a run of writes hands to a stream in all. The first
/// write offers `payload`, each later one offers what the one before left
/// unwritten, and `reports` holds what the backend reported at each.
pub open spec fn handed_over(payload: Seq<u8>, reports: Seq<u64>) -> Seq<u8>
    decreases reports.len(),
{
    if reports.len() == 0 {
        Seq::empty()
    } else {
        let count = crate::io::moved(payload.len() as u64, reports[0]);
        payload.take(count as int) + handed_over(
            payload.skip(count as int),
            reports.drop_first(),
        )
    }
}

/// The bytes that such a run of writes leaves unwritten.
pub open spec fn left_over(payload: Seq<u8>, reports: Seq<u64>) -> Seq<u8>
    decreases reports.len(),
{
    if reports.len() == 0 {
        payload
    } else {
        let count = crate::io::moved(payload.len() as u64, reports[0]);
        left_over(payload.skip(count as int), reports.drop_first())
    }
}

/// Writing the rest again and again neither loses a byte nor sends one
/// twice: what was handed over, followed by what is left, is the payload,
/// whatever the backend reported.
pub proof fn lemma_partial_writes_keep_the_payload(payload: Seq<u8>, reports: Seq<u64>)
    requires
        payload.len() <= u64::MAX,
    ensures
        handed_over(payload, reports) + left_over(payload, reports) == payload,
    decreases reports.len(),
{
    if reports.len() == 0 {
        assert(handed_over(payload, reports) + left_over(payload, reports) =~= payload);
    } else {
        let count = crate::io::moved(payload.len() as u64, reports[0]);
        let rest = payload.skip(count as int);
        lemma_partial_writes_keep_the_payload(rest, reports.drop_first());
        assert(handed_over(payload, reports) + left_over(payload, reports) =~= payload.take(
            count as int,
        ) + (handed_over(rest, reports.drop_first()) + left_over(rest, reports.drop_first())));
        assert(payload.take(count as int) + rest =~= payload);
    }
}

/// Whether the backend takes at least one byte of every write that offers
/// one, in a run of writes of `payload` with the reports `reports`.
pub open spec fn takes_from_every_offer(payload: Seq<u8>, reports: Seq<u64>) -> bool {
    forall|i: int|
        0 <= i < reports.len() && left_over(payload, reports.take(i)).len() > 0
            ==> #[trigger] reports[i] >= 1
}

/// Writing the rest again and again comes to an end: where the backend
/// takes at least one byte of every write that offers one, as many writes
/// as the payload has bytes leave nothing unwritten, and what was handed
/// over is the payload.
pub proof fn lemma_partial_writes_converge(payload: Seq<u8>, reports: Seq<u64>)
    requires
        payload.len() <= u64::MAX,
        reports.len() >= payload.len(),
        takes_from_every_offer(payload, reports),
    ensures
        left_over(payload, reports).len() == 0,
        handed_over(payload, reports) == payload,
    decreases reports.len(),
{
    if reports.len() > 0 {
        let count = crate::io::moved(payload.len() as u64, reports[0]);
        let rest = payload.skip(count as int);
        let later = reports.drop_first();
        assert(reports.take(0) =~= Seq::<u64>::empty());
        assert(payload.len() > 0 ==> reports[0] >= 1);
        assert forall|i: int|
            0 <= i < later.len() && left_over(rest, later.take(i)).len() > 0 implies #[trigger] later[i]
            >= 1 by {
            let front = reports.take(i + 1);
            assert(front[0] == reports[0]);
            assert(front.drop_first() =~= later.take(i));
            assert(left_over(payload, front) == left_over(rest, later.take(i)));
            assert(later[i] == reports[i + 1]);
        }
        lemma_partial_writes_converge(rest, later);
    }
    lemma_partial_writes_keep_the_payload(payload, reports);
    assert(handed_over(payload, reports) + left_over(payload, reports) =~= handed_over(
        payload,
        reports,
    ));
}

/// A backend that takes at most `most` bytes of a write needs its share of
/// writes: a run of writes hands over no more than `most` bytes for each.
pub proof fn lemma_partial_writes_are_bounded(payload: Seq<u8>, reports: Seq<u64>, most: u64)
    requires
        payload.len() <= u64::MAX,
        forall|i: int| 0 <= i < reports.len() ==> #[trigger] reports[i] <= most,
    ensures
        handed_over(payload, reports).len() <= reports.len() * most,
    decreases reports.len(),
{
    if reports.len() > 0 {
        let count = crate::io::moved(payload.len() as u64, reports[0]);
        let rest = payload.skip(count as int);
        let later = reports.drop_first();
        assert(reports[0] <= most);
        assert forall|i: int| 0 <= i < later.len() implies #[trigger] later[i] <= most by {
            assert(later[i] == reports[i + 1]);
        }
        lemma_partial_writes_are_bounded(rest, later, most);
        assert(later.len() * most + most == reports.len() * most) by (nonlinear_arith)
            requires
                later.len() + 1 == reports.len(),
        ;
    }
}

} // verus!
