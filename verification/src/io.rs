//! The stream operations that a guest may call, and the errors that reach it.

use crate::stream::HostInputStream;
use crate::stream::HostOutputStream;
use crate::stream::StreamError;
use crate::table::HostPollable;
use crate::table::Kind;
use crate::table::Resource;
use crate::table::Table;
use crate::table::TableError;
use vstd::prelude::*;

verus! {

/// The handle of an input stream.
pub type InputStream = u32;

/// The handle of an output stream.
pub type OutputStream = u32;

/// The handle of a readiness handle.
pub type Pollable = u32;

/// The most bytes that one `read` hands back, however many were asked for.
pub const MAX_READ_CHUNK: u64 = 0x400000;

/// A failure that ends the guest's call: the host itself cannot go on.
#[derive(Debug, Copy, Clone, PartialEq, Eq, Hash, Structural)]
pub enum Fault {
    /// The resource table failed.
    Table(TableError),
}

/// What a stream operation fails with.
#[derive(Debug, Copy, Clone, PartialEq, Eq, Hash, Structural)]
pub enum Error {
    /// The guest's call is aborted.
    Fault(Fault),
    /// The guest is told that the stream is broken, and goes on.
    Stream(StreamError),
}

impl Error {
    /// The error that a failure of the table becomes: a table without room
    /// is the host's trouble and a fault; a handle that names nothing, or a
    /// resource of another kind, is the guest's, and is a broken stream.
    pub open spec fn of_table_error(error: TableError) -> Error {
        match error {
            TableError::Full => Error::Fault(Fault::Table(TableError::Full)),
            TableError::NotPresent | TableError::WrongType => Error::Stream(StreamError {  }),
        }
    }
}

impl From<TableError> for Error {
    fn from(error: TableError) -> (mapped: Error) {
        match error {
            TableError::Full => Error::Fault(Fault::Table(error)),
            TableError::NotPresent | TableError::WrongType => Error::Stream(StreamError {  }),
        }
    }
}

impl vstd::std_specs::convert::FromSpecImpl<TableError> for Error {
    open spec fn obeys_from_spec() -> bool {
        true
    }

    open spec fn from_spec(error: TableError) -> Error {
        Error::of_table_error(error)
    }
}

impl From<StreamError> for Error {
    fn from(error: StreamError) -> (mapped: Error) {
        Error::Stream(error)
    }
}

impl vstd::std_specs::convert::FromSpecImpl<StreamError> for Error {
    open spec fn obeys_from_spec() -> bool {
        true
    }

    open spec fn from_spec(error: StreamError) -> Error {
        Error::Stream(error)
    }
}

/// How many bytes a `read` of `len` bytes makes room for.
pub open spec fn chunk_len(len: u64) -> nat {
    if len < MAX_READ_CHUNK {
        len as nat
    } else {
        MAX_READ_CHUNK as nat
    }
}

/// The smaller of two counts.
pub open spec fn at_most(count: nat, bound: nat) -> nat {
    if count < bound {
        count
    } else {
        bound
    }
}

/// How many of `requested` bytes count as moved when a backend reports
/// `reported`: never more than were requested.
pub open spec fn moved(requested: u64, reported: u64) -> u64 {
    if reported < requested {
        reported
    } else {
        requested
    }
}

/// What a `read` hands back when the backend answered `answer` and `filled`
/// is the buffer of `limit` bytes that it was given.
pub open spec fn read_outcome(
    filled: Seq<u8>,
    limit: nat,
    answer: Result<(u64, bool), StreamError>,
) -> Result<(Seq<u8>, bool), Error> {
    match answer {
        Ok((count, end)) => Ok(
            (filled.take(at_most(at_most(count as nat, limit), filled.len()) as int), end),
        ),
        Err(error) => Err(Error::Stream(error)),
    }
}

/// What a `skip` of `len` bytes hands back when the backend answered `answer`.
pub open spec fn skip_outcome(len: u64, answer: Result<(u64, bool), StreamError>) -> Result<
    (u64, bool),
    Error,
> {
    match answer {
        Ok((count, end)) => Ok((moved(len, count), end)),
        Err(error) => Err(Error::Stream(error)),
    }
}

/// What a write of `len` bytes hands back when the backend answered `answer`.
pub open spec fn write_outcome(len: u64, answer: Result<u64, StreamError>) -> Result<u64, Error> {
    match answer {
        Ok(count) => Ok(moved(len, count)),
        Err(error) => Err(Error::Stream(error)),
    }
}

/// The bytes and the end flag of what a `read` handed back.
pub open spec fn read_view(outcome: Result<(Vec<u8>, bool), Error>) -> Result<
    (Seq<u8>, bool),
    Error,
> {
    match outcome {
        Ok((bytes, end)) => Ok((bytes@, end)),
        Err(error) => Err(error),
    }
}

/// Whether one turn of an operation on an input stream that waits may
/// return: something was moved, the end was reached, or nothing was asked
/// for.
pub open spec fn input_progress(len: u64, count: nat, end: bool) -> bool {
    count > 0 || end || len == 0
}

/// Whether one turn of a write that waits may return: something was
/// written, or there was nothing to write.
pub open spec fn output_progress(len: u64, count: u64) -> bool {
    count > 0 || len == 0
}

/// What a read of up to `len` bytes from `stream` does to the table and
/// hands back.
///
/// A handle that names no input stream gives a broken stream and leaves the
/// table as it is. Bytes that wait are handed on first, as many as were
/// asked for and as fit a chunk, without a call of the backend. A stream
/// with nothing more to give gives no bytes and the end, again without a
/// call. Otherwise the backend decides: the bytes are no more than asked for
/// and no more than a chunk, an end is remembered, and a failure is a broken
/// stream. In every case the end is reported exactly when the stream is left
/// with nothing more to give.
pub open spec fn read_post<I, O>(
    before: &Table<I, O>,
    after: &Table<I, O>,
    stream: InputStream,
    len: u64,
    outcome: Result<(Seq<u8>, bool), Error>,
) -> bool {
    &&& before.advances_to(after)
    &&& after.same_except(before, stream)
    &&& outcome matches Ok((_, end)) ==> end == after.input_at_end(stream)
    &&& match before.lookup(stream, Kind::Input) {
        Err(_) => outcome == Err::<(Seq<u8>, bool), Error>(Error::Stream(StreamError {  }))
            && after == before,
        Ok(resource) => if resource.pending().len() > 0 {
            let count = at_most(chunk_len(len), resource.pending().len()) as int;
            &&& outcome matches Ok((bytes, _))
            &&& bytes =~= resource.pending().take(count)
            &&& after.input_changed_from(
                before,
                stream,
                resource.pending().skip(count),
                resource.ended(),
            )
        } else if resource.ended() {
            &&& outcome matches Ok((bytes, _))
            &&& bytes.len() == 0
            &&& after == before
        } else {
            &&& after.lookup(stream, Kind::Input) is Ok
            &&& after.generation(stream) == before.generation(stream)
            &&& after.input_pending(stream).len() == 0
            &&& match outcome {
                Ok((bytes, _)) => bytes.len() <= chunk_len(len),
                Err(error) => error == Error::Stream(StreamError {  }) && !after.input_ended(
                    stream,
                ),
            }
        },
    }
}

/// What a skip of up to `len` bytes of `stream` does to the table and hands
/// back: as a read, with a count in place of the bytes, and without the
/// bound of a chunk.
pub open spec fn skip_post<I, O>(
    before: &Table<I, O>,
    after: &Table<I, O>,
    stream: InputStream,
    len: u64,
    outcome: Result<(u64, bool), Error>,
) -> bool {
    &&& before.advances_to(after)
    &&& after.same_except(before, stream)
    &&& outcome matches Ok((_, end)) ==> end == after.input_at_end(stream)
    &&& match before.lookup(stream, Kind::Input) {
        Err(_) => outcome == Err::<(u64, bool), Error>(Error::Stream(StreamError {  })) && after
            == before,
        Ok(resource) => if resource.pending().len() > 0 {
            let count = at_most(len as nat, resource.pending().len());
            &&& outcome matches Ok((dropped, _))
            &&& dropped == count
            &&& after.input_changed_from(
                before,
                stream,
                resource.pending().skip(count as int),
                resource.ended(),
            )
        } else if resource.ended() {
            &&& outcome matches Ok((dropped, _))
            &&& dropped == 0
            &&& after == before
        } else {
            &&& after.lookup(stream, Kind::Input) is Ok
            &&& after.generation(stream) == before.generation(stream)
            &&& after.input_pending(stream).len() == 0
            &&& match outcome {
                Ok((dropped, _)) => dropped <= len,
                Err(error) => error == Error::Stream(StreamError {  }) && !after.input_ended(
                    stream,
                ),
            }
        },
    }
}

/// What a write of `len` bytes to `stream` does to the table and hands
/// back. A handle that names no output stream gives a broken stream and
/// leaves the table as it is. Otherwise the backend decides: the count is no
/// more than `len`, and a failure is a broken stream.
pub open spec fn write_post<I, O>(
    before: &Table<I, O>,
    after: &Table<I, O>,
    stream: OutputStream,
    len: u64,
    outcome: Result<u64, Error>,
) -> bool {
    &&& before.advances_to(after)
    &&& after.same_except(before, stream)
    &&& match before.lookup(stream, Kind::Output) {
        Err(_) => outcome == Err::<u64, Error>(Error::Stream(StreamError {  })) && after == before,
        Ok(_) => {
            &&& after.lookup(stream, Kind::Output) is Ok
            &&& after.generation(stream) == before.generation(stream)
            &&& match outcome {
                Ok(count) => count <= len,
                Err(error) => error == Error::Stream(StreamError {  }),
            }
        },
    }
}

/// What moving up to `len` bytes from `src` to `dst` does to the table and
/// hands back.
///
/// Unless `src` names an input stream and `dst` an output stream, the
/// outcome is a broken stream and the table stays as it is. A source with
/// nothing more to give moves nothing and reports the end. Otherwise bytes
/// that wait at the source are offered to the destination, up to `len` and
/// to a chunk; where none wait, a chunk is read from the source first and
/// waits from then on. What the destination takes is dropped at the source
/// and counted; what it does not take goes on waiting, so that no byte is
/// lost between the two. A failure of either backend is a broken stream, and
/// drops nothing that waited.
pub open spec fn splice_post<I, O>(
    before: &Table<I, O>,
    after: &Table<I, O>,
    src: InputStream,
    dst: OutputStream,
    len: u64,
    outcome: Result<(u64, bool), Error>,
) -> bool {
    &&& before.advances_to(after)
    &&& after.same_except_two(before, src, dst)
    &&& outcome matches Ok((_, end)) ==> end == after.input_at_end(src)
    &&& if before.lookup(src, Kind::Input) is Err || before.lookup(dst, Kind::Output) is Err {
        outcome == Err::<(u64, bool), Error>(Error::Stream(StreamError {  })) && after == before
    } else if before.input_at_end(src) {
        outcome == Ok::<(u64, bool), Error>((0, true)) && after == before
    } else {
        &&& after.lookup(src, Kind::Input) is Ok
        &&& after.lookup(dst, Kind::Output) is Ok
        &&& after.generation(src) == before.generation(src)
        &&& after.generation(dst) == before.generation(dst)
        &&& match outcome {
            Ok((count, _)) => {
                &&& count <= chunk_len(len)
                &&& before.input_pending(src).len() > 0 ==> {
                    &&& count <= before.input_pending(src).len()
                    &&& after.input_pending(src) =~= before.input_pending(src).skip(count as int)
                    &&& after.input_ended(src) == before.input_ended(src)
                }
            },
            Err(error) => {
                &&& error == Error::Stream(StreamError {  })
                &&& before.input_pending(src).len() > 0 ==> {
                    &&& after.input_pending(src) =~= before.input_pending(src)
                    &&& after.input_ended(src) == before.input_ended(src)
                }
            },
        }
    }
}

/// The length of the buffer that a read of `len` bytes is given.
fn read_buffer_len(len: u64) -> (limit: usize)
    ensures
        limit == chunk_len(len),
{
    if len < MAX_READ_CHUNK {
        len as usize
    } else {
        MAX_READ_CHUNK as usize
    }
}

/// Bounds what a backend reported by what was requested.
fn bounded(requested: u64, reported: u64) -> (count: u64)
    ensures
        count == moved(requested, reported),
{
    if reported < requested {
        reported
    } else {
        requested
    }
}

/// How many bytes wait at the input stream `stream`, and whether its
/// backend has reported its end.
fn input_state<I, O>(table: &Table<I, O>, stream: InputStream) -> (state: Result<
    (usize, bool),
    TableError,
>)
    ensures
        match table.lookup(stream, Kind::Input) {
            Ok(resource) => {
                &&& state matches Ok((waiting, ended))
                &&& waiting == resource.pending().len()
                &&& ended == resource.ended()
            },
            Err(error) => state == Err::<(usize, bool), TableError>(error),
        },
{
    match table.get(stream, Kind::Input) {
        Ok(Resource::Input { pending, ended, .. }) => Ok((pending.len(), *ended)),
        Ok(_) => Ok((0, false)),
        Err(error) => Err(error),
    }
}

/// Makes what `read` hands back from the backend's answer and the buffer
/// of `limit` bytes that the backend was given: the front of the buffer, as
/// long as the backend said and never longer than `limit`.
pub fn complete_read(buffer: Vec<u8>, limit: usize, answer: Result<(u64, bool), StreamError>) -> (outcome:
    Result<(Vec<u8>, bool), Error>)
    ensures
        read_view(outcome) == read_outcome(buffer@, limit as nat, answer),
{
    match answer {
        Ok((count, end)) => {
            let bound: usize = if count < limit as u64 {
                count as usize
            } else {
                limit
            };
            let mut bytes = buffer;
            bytes.truncate(bound);
            assert(read_outcome(buffer@, limit as nat, answer) matches Ok((front, _)) && front
                =~= bytes@);
            Ok((bytes, end))
        },
        Err(error) => Err(Error::from(error)),
    }
}

/// Makes what `skip` hands back from the backend's answer: the count
/// bounded by `len`.
pub fn complete_skip(len: u64, answer: Result<(u64, bool), StreamError>) -> (outcome: Result<
    (u64, bool),
    Error,
>)
    ensures
        outcome == skip_outcome(len, answer),
{
    match answer {
        Ok((count, end)) => Ok((bounded(len, count), end)),
        Err(error) => Err(Error::from(error)),
    }
}

/// Makes what `write` and `write_zeroes` hand back from the backend's
/// answer: the count bounded by `len`, the number of bytes offered.
pub fn complete_write(len: u64, answer: Result<u64, StreamError>) -> (outcome: Result<u64, Error>)
    ensures
        outcome == write_outcome(len, answer),
{
    match answer {
        Ok(count) => Ok(bounded(len, count)),
        Err(error) => Err(Error::from(error)),
    }
}

/// Asks the backend of `stream` for up to `limit` bytes. The stream is one
/// that has nothing waiting and has not reported its end; the table is
/// left with the backend as the call left it, and nothing else changed.
fn read_backend<I: HostInputStream, O: HostOutputStream>(
    table: &mut Table<I, O>,
    stream: InputStream,
    limit: usize,
) -> (outcome: Result<(Vec<u8>, bool), Error>)
    requires
        old(table).lookup(stream, Kind::Input) is Ok,
        old(table).input_pending(stream).len() == 0,
        !old(table).input_ended(stream),
    ensures
        old(table).advances_to(final(table)),
        final(table).same_except(old(table), stream),
        final(table).lookup(stream, Kind::Input) is Ok,
        final(table).generation(stream) == old(table).generation(stream),
        final(table).input_pending(stream).len() == 0,
        !final(table).input_ended(stream),
        match outcome {
            Ok((bytes, _)) => bytes@.len() <= limit,
            Err(error) => error == Error::Stream(StreamError {  }),
        },
{
    let mut buffer = vec![0u8; limit];
    let answer = match table.get_input_stream_mut(stream) {
        Ok(backend) => backend.read(buffer.as_mut_slice()),
        Err(_) => Err(StreamError {  }),
    };
    complete_read(buffer, limit, answer)
}

/// Reads up to `len` bytes from `stream`, without waiting for any.
pub fn read<I: HostInputStream, O: HostOutputStream>(
    table: &mut Table<I, O>,
    stream: InputStream,
    len: u64,
) -> (outcome: Result<(Vec<u8>, bool), Error>)
    ensures
        read_post(old(table), final(table), stream, len, read_view(outcome)),
{
    let (waiting, ended) = match input_state(table, stream) {
        Ok(state) => state,
        Err(error) => {
            return Err(Error::from(error));
        },
    };
    let limit = read_buffer_len(len);
    if waiting > 0 {
        let count = if limit < waiting {
            limit
        } else {
            waiting
        };
        let bytes = table.pending_front(stream, count);
        table.drop_pending(stream, count);
        return Ok((bytes, ended && count == waiting));
    }
    if ended {
        return Ok((Vec::new(), true));
    }
    let outcome = read_backend(table, stream, limit);
    let at_end = match &outcome {
        Ok((_, end)) => *end,
        Err(_) => false,
    };
    if at_end {
        table.end_input_stream(stream);
    }
    outcome
}

/// One turn of a read that waits: `None` where the stream has neither
/// bytes nor its end to give yet, so that the caller waits until the stream
/// is ready and takes another turn.
pub fn blocking_read<I: HostInputStream, O: HostOutputStream>(
    table: &mut Table<I, O>,
    stream: InputStream,
    len: u64,
) -> (turn: Result<Option<(Vec<u8>, bool)>, Error>)
    ensures
        match turn {
            Ok(Some((bytes, end))) => {
                &&& read_post(old(table), final(table), stream, len, Ok((bytes@, end)))
                &&& input_progress(len, bytes@.len(), end)
            },
            Ok(None) => {
                &&& read_post(old(table), final(table), stream, len, Ok((Seq::empty(), false)))
                &&& !input_progress(len, 0, false)
            },
            Err(error) => read_post(old(table), final(table), stream, len, Err(error)),
        },
{
    match read(table, stream, len) {
        Ok((bytes, end)) => {
            if bytes.len() > 0 || end || len == 0 {
                Ok(Some((bytes, end)))
            } else {
                Ok(None)
            }
        },
        Err(error) => Err(error),
    }
}

/// Reads and drops up to `len` bytes of `stream`, without waiting for any.
pub fn skip<I: HostInputStream, O: HostOutputStream>(
    table: &mut Table<I, O>,
    stream: InputStream,
    len: u64,
) -> (outcome: Result<(u64, bool), Error>)
    ensures
        skip_post(old(table), final(table), stream, len, outcome),
{
    let (waiting, ended) = match input_state(table, stream) {
        Ok(state) => state,
        Err(error) => {
            return Err(Error::from(error));
        },
    };
    if waiting > 0 {
        let count = if len < waiting as u64 {
            len as usize
        } else {
            waiting
        };
        table.drop_pending(stream, count);
        return Ok((count as u64, ended && count == waiting));
    }
    if ended {
        return Ok((0, true));
    }
    let answer = match table.get_input_stream_mut(stream) {
        Ok(backend) => backend.skip(len),
        Err(_) => Err(StreamError {  }),
    };
    let outcome = complete_skip(len, answer);
    let at_end = match &outcome {
        Ok((_, end)) => *end,
        Err(_) => false,
    };
    if at_end {
        table.end_input_stream(stream);
    }
    outcome
}

/// One turn of a skip that waits: `None` where nothing could be dropped
/// yet and the end is not reached.
pub fn blocking_skip<I: HostInputStream, O: HostOutputStream>(
    table: &mut Table<I, O>,
    stream: InputStream,
    len: u64,
) -> (turn: Result<Option<(u64, bool)>, Error>)
    ensures
        match turn {
            Ok(Some((count, end))) => {
                &&& skip_post(old(table), final(table), stream, len, Ok((count, end)))
                &&& input_progress(len, count as nat, end)
            },
            Ok(None) => {
                &&& skip_post(old(table), final(table), stream, len, Ok((0, false)))
                &&& !input_progress(len, 0, false)
            },
            Err(error) => skip_post(old(table), final(table), stream, len, Err(error)),
        },
{
    match skip(table, stream, len) {
        Ok((count, end)) => {
            if count > 0 || end || len == 0 {
                Ok(Some((count, end)))
            } else {
                Ok(None)
            }
        },
        Err(error) => Err(error),
    }
}

/// Writes bytes from the front of `bytes` to `stream`, without waiting for
/// room, and returns how many were written. The rest is the caller's to
/// write again.
pub fn write<I: HostInputStream, O: HostOutputStream>(
    table: &mut Table<I, O>,
    stream: OutputStream,
    bytes: Vec<u8>,
) -> (outcome: Result<u64, Error>)
    ensures
        write_post(old(table), final(table), stream, bytes@.len() as u64, outcome),
{
    let answer = match table.get_output_stream_mut(stream) {
        Ok(backend) => backend.write(bytes.as_slice()),
        Err(error) => {
            return Err(Error::from(error));
        },
    };
    complete_write(bytes.len() as u64, answer)
}

/// One turn of a write that waits: `None` where the stream had no room yet.
pub fn blocking_write<I: HostInputStream, O: HostOutputStream>(
    table: &mut Table<I, O>,
    stream: OutputStream,
    bytes: Vec<u8>,
) -> (turn: Result<Option<u64>, Error>)
    ensures
        match turn {
            Ok(Some(count)) => {
                &&& write_post(old(table), final(table), stream, bytes@.len() as u64, Ok(count))
                &&& output_progress(bytes@.len() as u64, count)
            },
            Ok(None) => {
                &&& write_post(old(table), final(table), stream, bytes@.len() as u64, Ok(0))
                &&& !output_progress(bytes@.len() as u64, 0)
            },
            Err(error) => write_post(
                old(table),
                final(table),
                stream,
                bytes@.len() as u64,
                Err(error),
            ),
        },
{
    let len = bytes.len();
    match write(table, stream, bytes) {
        Ok(count) => {
            if count > 0 || len == 0 {
                Ok(Some(count))
            } else {
                Ok(None)
            }
        },
        Err(error) => Err(error),
    }
}

/// Writes up to `len` zero bytes to `stream`, without waiting for room, and
/// returns how many were written. The backend is asked for the run of
/// zeroes as such: no buffer of zeroes is made here.
pub fn write_zeroes<I: HostInputStream, O: HostOutputStream>(
    table: &mut Table<I, O>,
    stream: OutputStream,
    len: u64,
) -> (outcome: Result<u64, Error>)
    ensures
        write_post(old(table), final(table), stream, len, outcome),
{
    let answer = match table.get_output_stream_mut(stream) {
        Ok(backend) => backend.write_zeroes(len),
        Err(error) => {
            return Err(Error::from(error));
        },
    };
    complete_write(len, answer)
}

/// One turn of a write of zeroes that waits: `None` where the stream had
/// no room yet.
pub fn blocking_write_zeroes<I: HostInputStream, O: HostOutputStream>(
    table: &mut Table<I, O>,
    stream: OutputStream,
    len: u64,
) -> (turn: Result<Option<u64>, Error>)
    ensures
        match turn {
            Ok(Some(count)) => {
                &&& write_post(old(table), final(table), stream, len, Ok(count))
                &&& output_progress(len, count)
            },
            Ok(None) => {
                &&& write_post(old(table), final(table), stream, len, Ok(0))
                &&& !output_progress(len, 0)
            },
            Err(error) => write_post(old(table), final(table), stream, len, Err(error)),
        },
{
    match write_zeroes(table, stream, len) {
        Ok(count) => {
            if count > 0 || len == 0 {
                Ok(Some(count))
            } else {
                Ok(None)
            }
        },
        Err(error) => Err(error),
    }
}

/// Moves up to `len` bytes from `src` to `dst`, without waiting at either.
///
/// The table hands out one stream at a time, so the bytes pass through the
/// table: they are read from `src` into the bytes that wait there, offered
/// to `dst`, and dropped at `src` as far as `dst` took them.
pub fn splice<I: HostInputStream, O: HostOutputStream>(
    table: &mut Table<I, O>,
    src: InputStream,
    dst: OutputStream,
    len: u64,
) -> (outcome: Result<(u64, bool), Error>)
    ensures
        splice_post(old(table), final(table), src, dst, len, outcome),
{
    let (waiting, ended) = match input_state(table, src) {
        Ok(state) => state,
        Err(error) => {
            return Err(Error::from(error));
        },
    };
    match table.get(dst, Kind::Output) {
        Ok(_) => {},
        Err(error) => {
            return Err(Error::from(error));
        },
    }
    let limit = read_buffer_len(len);
    if waiting == 0 {
        if ended {
            return Ok((0, true));
        }
        match read_backend(table, src, limit) {
            Ok((bytes, end)) => {
                table.hold_pending(src, bytes, end);
            },
            Err(error) => {
                return Err(error);
            },
        }
    }
    let offer = table.pending_front(src, limit);
    let mut count: u64 = 0;
    if offer.len() > 0 {
        let answer = match table.get_output_stream_mut(dst) {
            Ok(backend) => backend.write(offer.as_slice()),
            Err(_) => Err(StreamError {  }),
        };
        match complete_write(offer.len() as u64, answer) {
            Ok(taken) => {
                table.drop_pending(src, taken as usize);
                count = taken;
            },
            Err(error) => {
                return Err(error);
            },
        }
    }
    match input_state(table, src) {
        Ok((left, ended)) => Ok((count, ended && left == 0)),
        Err(error) => Err(Error::from(error)),
    }
}

/// One turn of a `splice` that waits: `None` where nothing could be moved
/// yet and the source is not at its end.
pub fn blocking_splice<I: HostInputStream, O: HostOutputStream>(
    table: &mut Table<I, O>,
    src: InputStream,
    dst: OutputStream,
    len: u64,
) -> (turn: Result<Option<(u64, bool)>, Error>)
    ensures
        match turn {
            Ok(Some((count, end))) => {
                &&& splice_post(old(table), final(table), src, dst, len, Ok((count, end)))
                &&& input_progress(len, count as nat, end)
            },
            Ok(None) => {
                &&& splice_post(old(table), final(table), src, dst, len, Ok((0, false)))
                &&& !input_progress(len, 0, false)
            },
            Err(error) => splice_post(old(table), final(table), src, dst, len, Err(error)),
        },
{
    match splice(table, src, dst, len) {
        Ok((count, end)) => {
            if count > 0 || end || len == 0 {
                Ok(Some((count, end)))
            } else {
                Ok(None)
            }
        },
        Err(error) => Err(error),
    }
}

/// The bytes forwarded in all after `count` more than `sent`: their sum,
/// as far as it can be counted.
pub open spec fn forwarded(sent: u64, count: u64) -> u64 {
    if sent + count <= u64::MAX {
        (sent + count) as u64
    } else {
        u64::MAX
    }
}

/// What one turn of forwarding `src` to `dst` does to the table and hands
/// back, after `sent` bytes were forwarded in the turns before: what a
/// `splice` of any length does, with the bytes forwarded in all in place of
/// the count of this turn.
pub open spec fn forward_post<I, O>(
    before: &Table<I, O>,
    after: &Table<I, O>,
    src: InputStream,
    dst: OutputStream,
    sent: u64,
    outcome: Result<(u64, bool), Error>,
) -> bool {
    match outcome {
        Ok((total, end)) => exists|count: u64|
            #![trigger forwarded(sent, count)]
            splice_post(before, after, src, dst, u64::MAX, Ok((count, end))) && total
                == forwarded(sent, count),
        Err(error) => splice_post(before, after, src, dst, u64::MAX, Err(error)),
    }
}

/// One turn of forwarding `src` to `dst`: moves what a `splice` of any
/// length moves, and adds it to `sent`, the bytes forwarded in the turns
/// before. Returns the bytes forwarded in all and whether `src` is at its
/// end. To forward a stream is to take turns until the end is reported,
/// from nothing sent, waiting for the streams where a turn moved nothing.
pub fn forward<I: HostInputStream, O: HostOutputStream>(
    table: &mut Table<I, O>,
    src: InputStream,
    dst: OutputStream,
    sent: u64,
) -> (outcome: Result<(u64, bool), Error>)
    ensures
        forward_post(old(table), final(table), src, dst, sent, outcome),
{
    match splice(table, src, dst, u64::MAX) {
        Ok((count, end)) => {
            let total = match sent.checked_add(count) {
                Some(sum) => sum,
                None => u64::MAX,
            };
            assert(total == forwarded(sent, count));
            Ok((total, end))
        },
        Err(error) => Err(error),
    }
}

/// What deleting `handle` as a resource of `kind` does to the table and
/// hands back. The call has no value to give a broken stream in, so a handle
/// that names no such resource is a fault, with the table's reason in it.
pub open spec fn drop_post<I, O>(
    before: &Table<I, O>,
    after: &Table<I, O>,
    handle: u32,
    kind: Kind,
    outcome: Result<(), Error>,
) -> bool {
    &&& before.advances_to(after)
    &&& after.same_except(before, handle)
    &&& match before.lookup(handle, kind) {
        Ok(_) => {
            &&& outcome is Ok
            &&& after@ == before.without_resource(handle)
            &&& after.retired(handle, before.generation(handle))
        },
        Err(error) => outcome == Err::<(), Error>(Error::Fault(Fault::Table(error))) && after
            == before,
    }
}

/// Deletes `handle` where it names a resource of `kind`, and drops the
/// resource.
fn drop_resource<I, O>(table: &mut Table<I, O>, handle: u32, kind: Kind) -> (outcome: Result<
    (),
    Error,
>)
    ensures
        drop_post(old(table), final(table), handle, kind, outcome),
{
    match table.delete(handle, kind) {
        Ok(_) => Ok(()),
        Err(error) => Err(Error::Fault(Fault::Table(error))),
    }
}

/// Deletes the input stream `stream`. Its backend is dropped with it.
pub fn drop_input_stream<I: HostInputStream, O: HostOutputStream>(
    table: &mut Table<I, O>,
    stream: InputStream,
) -> (outcome: Result<(), Error>)
    ensures
        drop_post(old(table), final(table), stream, Kind::Input, outcome),
{
    drop_resource(table, stream, Kind::Input)
}

/// Deletes the output stream `stream`. Its backend is dropped with it.
pub fn drop_output_stream<I: HostInputStream, O: HostOutputStream>(
    table: &mut Table<I, O>,
    stream: OutputStream,
) -> (outcome: Result<(), Error>)
    ensures
        drop_post(old(table), final(table), stream, Kind::Output, outcome),
{
    drop_resource(table, stream, Kind::Output)
}

/// Deletes the readiness handle `pollable`. The stream it refers to stays.
pub fn drop_pollable<I: HostInputStream, O: HostOutputStream>(
    table: &mut Table<I, O>,
    pollable: Pollable,
) -> (outcome: Result<(), Error>)
    ensures
        drop_post(old(table), final(table), pollable, Kind::Pollable, outcome),
{
    drop_resource(table, pollable, Kind::Pollable)
}

/// What subscribing to `stream` as a stream of `kind` does to the table
/// and hands back.
///
/// A handle that names no such stream gives a broken stream. A table
/// without room gives a fault. Either leaves the table as it is. Otherwise
/// the next handle is given to a readiness handle that refers to the stream
/// as it is now: by its handle and its generation.
pub open spec fn subscribe_post<I, O>(
    before: &Table<I, O>,
    after: &Table<I, O>,
    stream: u32,
    kind: Kind,
    outcome: Result<Pollable, Error>,
) -> bool {
    &&& before.advances_to(after)
    &&& match before.lookup(stream, kind) {
        Err(_) => outcome == Err::<Pollable, Error>(Error::Stream(StreamError {  })) && after
            == before,
        Ok(_) => if before.is_full() {
            outcome == Err::<Pollable, Error>(Error::Fault(Fault::Table(TableError::Full)))
                && after == before
        } else {
            &&& outcome matches Ok(pollable)
            &&& before.is_next_handle(pollable)
            &&& after@ == before.with_resource(
                pollable,
                Resource::Pollable(
                    HostPollable { target: stream, generation: before.generation(stream) },
                ),
            )
        },
    }
}

/// Makes a readiness handle for `stream` where it names a stream of `kind`.
fn subscribe<I, O>(table: &mut Table<I, O>, stream: u32, kind: Kind) -> (outcome: Result<
    Pollable,
    Error,
>)
    ensures
        subscribe_post(old(table), final(table), stream, kind, outcome),
{
    match table.get(stream, kind) {
        Ok(_) => {},
        Err(error) => {
            return Err(Error::from(error));
        },
    }
    let pollable = HostPollable { target: stream, generation: table.generation_of(stream) };
    match table.push_host_pollable(pollable) {
        Ok(handle) => Ok(handle),
        Err(error) => Err(Error::from(error)),
    }
}

/// Makes a readiness handle for the input stream `stream`.
pub fn subscribe_to_input_stream<I: HostInputStream, O: HostOutputStream>(
    table: &mut Table<I, O>,
    stream: InputStream,
) -> (outcome: Result<Pollable, Error>)
    ensures
        subscribe_post(old(table), final(table), stream, Kind::Input, outcome),
{
    subscribe(table, stream, Kind::Input)
}

/// Makes a readiness handle for the output stream `stream`.
pub fn subscribe_to_output_stream<I: HostInputStream, O: HostOutputStream>(
    table: &mut Table<I, O>,
    stream: OutputStream,
) -> (outcome: Result<Pollable, Error>)
    ensures
        subscribe_post(old(table), final(table), stream, Kind::Output, outcome),
{
    subscribe(table, stream, Kind::Output)
}

/// What a poll answers for a readiness handle that refers to `target`
/// when the backend, asked whether it is ready, said `backend_ready`. An
/// input stream with bytes waiting, or with its end reported, is ready
/// without asking; any other stream is as ready as its backend says; and a
/// readiness handle is no stream and never ready.
pub open spec fn readiness<I, O>(target: Resource<I, O>, backend_ready: bool) -> bool {
    match target {
        Resource::Input { pending, ended, .. } => pending@.len() > 0 || ended || backend_ready,
        Resource::Output(_) => backend_ready,
        Resource::Pollable(_) => false,
    }
}

/// What a poll of `pollable` hands back.
///
/// A handle that names no readiness handle gives a broken stream. A
/// readiness handle whose stream is gone is not ready, also where the slot of
/// the stream holds another resource by now. One whose stream is live is as
/// ready as `readiness` says, for what the backend answered.
pub open spec fn poll_post<I, O>(
    table: &Table<I, O>,
    pollable: Pollable,
    outcome: Result<bool, Error>,
) -> bool {
    match table.lookup(pollable, Kind::Pollable) {
        Ok(Resource::Pollable(reference)) => {
            &&& outcome matches Ok(ready)
            &&& if table.live_at(reference.target, reference.generation) {
                exists|backend_ready: bool|
                    ready == readiness(table.resource(reference.target)->0, backend_ready)
            } else {
                !ready
            }
        },
        Ok(_) => false,
        Err(_) => outcome == Err::<bool, Error>(Error::Stream(StreamError {  })),
    }
}

/// Says whether the stream that `pollable` refers to is ready, without
/// waiting and without a change to anything.
pub fn poll<I: HostInputStream, O: HostOutputStream>(
    table: &Table<I, O>,
    pollable: Pollable,
) -> (outcome: Result<bool, Error>)
    ensures
        poll_post(table, pollable, outcome),
{
    let reference = match table.get(pollable, Kind::Pollable) {
        Ok(Resource::Pollable(reference)) => *reference,
        Ok(_) => {
            return Ok(false);
        },
        Err(error) => {
            return Err(Error::from(error));
        },
    };
    if table.generation_of(reference.target) != reference.generation {
        return Ok(false);
    }
    let ready = match table.find(reference.target) {
        Some(Resource::Input { stream, pending, ended }) => {
            let ready = pending.len() > 0 || *ended || stream.ready();
            assert(ready == readiness(table.resource(reference.target)->0, ready));
            ready
        },
        Some(Resource::Output(stream)) => {
            let ready = stream.ready();
            assert(ready == readiness(table.resource(reference.target)->0, ready));
            ready
        },
        Some(Resource::Pollable(_)) => {
            assert(false == readiness(table.resource(reference.target)->0, false));
            false
        },
        None => false,
    };
    Ok(ready)
}

} // verus!
