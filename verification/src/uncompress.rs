//! Decompression of a whole gzip stream, into a buffer that grows as needed.

use vstd::prelude::*;
use crate::codes::{FlushCode, ReturnCode, MAX_CAPACITY};
use crate::compress::view_of;
use crate::engine::{has_gzip_magic, inflate_report, Offer};
use crate::stream::{Direction, ZStream};

verus! {

/// Size of the first output buffer that `uncompress` tries.
pub const DEFAULT_INITIAL_SIZE: usize = 131072;

/// Factor by which `uncompress` grows its output buffer.
pub const DEFAULT_MULTIPLIER: usize = 8;

/// What decompression returns, given the status of the last engine call,
/// the status of releasing the engine, and the bytes that were produced:
/// any status but the end of the stream is handed on as the error, then a
/// fault in releasing is.
pub open spec fn uncompress_outcome_spec(
    process: ReturnCode,
    end: ReturnCode,
    produced: Seq<u8>,
) -> Result<Seq<u8>, ReturnCode> {
    if process != ReturnCode::Z_STREAM_END {
        Err(process)
    } else if end != ReturnCode::Z_OK {
        Err(end)
    } else {
        Ok(produced)
    }
}

/// Resolves a decompression: `output` cut to its first `total_out` bytes on
/// success, the error otherwise.
pub fn uncompress_outcome(
    process: ReturnCode,
    end: ReturnCode,
    output: Vec<u8>,
    total_out: usize,
) -> (r: Result<Vec<u8>, ReturnCode>)
    requires
        total_out <= output@.len(),
    ensures
        view_of(r) == uncompress_outcome_spec(process, end, output@.take(total_out as int)),
{
    match process {
        ReturnCode::Z_STREAM_END => match end {
            ReturnCode::Z_OK => {
                let mut output = output;
                output.truncate(total_out);
                Ok(output)
            },
            _ => Err(end),
        },
        _ => Err(process),
    }
}

/// Whether the engine stopped for want of room: it reports a buffer fault
/// and has input left.
pub open spec fn wants_room(status: ReturnCode, avail_in: nat) -> bool {
    status == ReturnCode::Z_BUF_ERROR && avail_in > 0
}

/// Decides after an engine call whether the output buffer is to be grown.
pub fn must_grow(status: ReturnCode, avail_in: usize) -> (grow: bool)
    ensures
        grow == wants_room(status, avail_in as nat),
{
    match status {
        ReturnCode::Z_BUF_ERROR => avail_in > 0,
        _ => false,
    }
}

/// A buffer of `capacity` bytes that begins with the first `total_out`
/// bytes of `output` and is zero after them.
pub open spec fn grown_spec(output: Seq<u8>, total_out: nat, capacity: nat) -> Seq<u8> {
    Seq::new(
        capacity,
        |i: int|
            if i < total_out {
                output[i]
            } else {
                0u8
            },
    )
}

/// The buffer that replaces `output` when the engine wants room:
/// `multiplier` times as large, with the `total_out` bytes produced so far
/// carried over. `None` if that is more than `MAX_CAPACITY`.
pub fn grow(output: &Vec<u8>, total_out: usize, multiplier: usize) -> (r: Option<Vec<u8>>)
    requires
        total_out <= output@.len(),
        multiplier >= 1,
    ensures
        match r {
            Some(buffer) => output@.len() * multiplier <= MAX_CAPACITY && buffer@ == grown_spec(
                output@,
                total_out as nat,
                (output@.len() * multiplier) as nat,
            ),
            None => output@.len() * multiplier > MAX_CAPACITY,
        },
{
    match output.len().checked_mul(multiplier) {
        None => None,
        Some(capacity) => {
            if capacity > MAX_CAPACITY {
                return None;
            }
            assert(capacity >= output@.len()) by (nonlinear_arith)
                requires
                    capacity == output@.len() * multiplier,
                    multiplier >= 1,
            ;
            let mut buffer = vec![0u8; capacity];
            let mut i: usize = 0;
            while i < total_out
                invariant
                    i <= total_out <= output@.len() <= capacity,
                    buffer@ == grown_spec(output@, i as nat, capacity as nat),
                decreases total_out - i,
            {
                buffer[i] = output[i];
                i += 1;
                assert(buffer@ =~= grown_spec(output@, i as nat, capacity as nat));
            }
            Some(buffer)
        },
    }
}

/// What the growth loop returns from a point where the engine has served
/// `offers` and the output buffer has `capacity` bytes. The engine is
/// handed the input it has not consumed and the room that is left. If it
/// wants room, the buffer is grown `multiplier` times and the loop goes on,
/// unless that is more than `MAX_CAPACITY`, which is a memory fault.
/// Otherwise its status decides.
pub open spec fn uncompress_from(
    input: Seq<u8>,
    offers: Seq<Offer>,
    capacity: nat,
    multiplier: nat,
) -> Result<Seq<u8>, ReturnCode>
    decreases MAX_CAPACITY - capacity,
    when capacity >= 1 && multiplier >= 2
    via uncompress_from_decreases
{
    let before = inflate_report(offers);
    let offer = Offer {
        input: input.skip(before.consumed as int),
        space: (capacity - before.produced.len()) as nat,
    };
    let after = inflate_report(offers.push(offer));
    if wants_room(after.status, (input.len() - after.consumed) as nat) {
        if capacity * multiplier > MAX_CAPACITY {
            Err(ReturnCode::Z_MEM_ERROR)
        } else {
            uncompress_from(input, offers.push(offer), capacity * multiplier, multiplier)
        }
    } else {
        uncompress_outcome_spec(after.status, ReturnCode::Z_OK, after.produced)
    }
}

#[via_fn]
proof fn uncompress_from_decreases(
    input: Seq<u8>,
    offers: Seq<Offer>,
    capacity: nat,
    multiplier: nat,
) {
    assert(capacity * multiplier > capacity) by (nonlinear_arith)
        requires
            capacity >= 1,
            multiplier >= 2,
    ;
}

/// What `uncompress_config` returns: the growth loop from a fresh engine
/// and a buffer of `initial_size` bytes. A first buffer above
/// `MAX_CAPACITY` is a memory fault.
pub open spec fn uncompress_spec(input: Seq<u8>, initial_size: nat, multiplier: nat) -> Result<
    Seq<u8>,
    ReturnCode,
> {
    if initial_size > MAX_CAPACITY {
        Err(ReturnCode::Z_MEM_ERROR)
    } else {
        uncompress_from(input, Seq::<Offer>::empty(), initial_size, multiplier)
    }
}

/// Decompresses the gzip stream `input`, first into a buffer of
/// `initial_size` bytes and, whenever the engine wants room, into one
/// `multiplier` times as large.
///
/// A multiplier of 1 is not supported: with a buffer that is too small the
/// loop would offer the same room for ever.
pub fn uncompress_config(input: &[u8], initial_size: usize, multiplier: usize) -> (r: Result<
    Vec<u8>,
    ReturnCode,
>)
    requires
        initial_size >= 1,
        multiplier >= 2,
    ensures
        view_of(r) == uncompress_spec(input@, initial_size as nat, multiplier as nat),
        initial_size <= MAX_CAPACITY && input@.len() < 2 ==> view_of(r) == Err::<
            Seq<u8>,
            ReturnCode,
        >(ReturnCode::Z_BUF_ERROR),
        initial_size <= MAX_CAPACITY && input@.len() >= 2 && !has_gzip_magic(input@) ==> view_of(r)
            == Err::<Seq<u8>, ReturnCode>(ReturnCode::Z_DATA_ERROR),
        !has_gzip_magic(input@) ==> r is Err,
{
    if initial_size > MAX_CAPACITY {
        return Err(ReturnCode::Z_MEM_ERROR);
    }
    let mut output = vec![0u8; initial_size];
    let mut stream = ZStream::init_decompress(input.len(), initial_size);
    assert(output@.take(0) =~= stream.produced());
    loop
        invariant
            multiplier >= 2,
            1 <= output@.len() <= MAX_CAPACITY,
            initial_size <= MAX_CAPACITY,
            stream.direction() == Direction::Decompress,
            stream.fits(input@, output@),
            stream.offers().len() == 0 ==> stream.total_in == 0,
            stream.offers().len() == 0 || has_gzip_magic(input@),
            uncompress_spec(input@, initial_size as nat, multiplier as nat) == uncompress_from(
                input@,
                stream.offers(),
                output@.len() as nat,
                multiplier as nat,
            ),
        decreases MAX_CAPACITY - output@.len(),
    {
        let ghost capacity = output@.len();
        let status = stream.process(input, &mut output, FlushCode::Z_FINISH);
        if must_grow(status, stream.avail_in) {
            match grow(&output, stream.total_out, multiplier) {
                None => {
                    let _ = stream.end();
                    return Err(ReturnCode::Z_MEM_ERROR);
                },
                Some(buffer) => {
                    assert(buffer@.len() > capacity) by (nonlinear_arith)
                        requires
                            buffer@.len() == capacity * multiplier,
                            capacity >= 1,
                            multiplier >= 2,
                    ;
                    assert(buffer@.take(stream.total_out as int) =~= output@.take(
                        stream.total_out as int,
                    ));
                    output = buffer;
                    stream.repoint(output.len());
                },
            }
        } else {
            let total_out = stream.total_out;
            let end_status = stream.end();
            return uncompress_outcome(status, end_status, output, total_out);
        }
    }
}

/// From any point of the growth loop, success is what the engine had
/// produced in all when a later call of it reported the end of the stream.
proof fn lemma_success_from(input: Seq<u8>, offers: Seq<Offer>, capacity: nat, multiplier: nat)
    requires
        capacity >= 1,
        multiplier >= 2,
        uncompress_from(input, offers, capacity, multiplier) is Ok,
    ensures
        exists|later: Seq<Offer>|
            {
                &&& later.len() > offers.len()
                &&& (#[trigger] inflate_report(later)).status == ReturnCode::Z_STREAM_END
                &&& uncompress_from(input, offers, capacity, multiplier) == Ok::<
                    Seq<u8>,
                    ReturnCode,
                >(inflate_report(later).produced)
            },
    decreases MAX_CAPACITY - capacity,
{
    let before = inflate_report(offers);
    let offer = Offer {
        input: input.skip(before.consumed as int),
        space: (capacity - before.produced.len()) as nat,
    };
    let next = offers.push(offer);
    let after = inflate_report(next);
    if wants_room(after.status, (input.len() - after.consumed) as nat) {
        assert(capacity * multiplier > capacity) by (nonlinear_arith)
            requires
                capacity >= 1,
                multiplier >= 2,
        ;
        lemma_success_from(input, next, capacity * multiplier, multiplier);
        let later = choose|later: Seq<Offer>|
            {
                &&& later.len() > next.len()
                &&& (#[trigger] inflate_report(later)).status == ReturnCode::Z_STREAM_END
                &&& uncompress_from(input, next, capacity * multiplier, multiplier) == Ok::<
                    Seq<u8>,
                    ReturnCode,
                >(inflate_report(later).produced)
            };
        assert(inflate_report(later).status == ReturnCode::Z_STREAM_END);
    } else {
        assert(inflate_report(next).status == ReturnCode::Z_STREAM_END);
    }
}

/// No success is cut short: where decompression succeeds, the engine
/// reported the end of the stream, and the result is all that it had
/// produced by then.
pub proof fn lemma_success_is_whole_stream(input: Seq<u8>, initial_size: nat, multiplier: nat)
    requires
        initial_size >= 1,
        multiplier >= 2,
        uncompress_spec(input, initial_size, multiplier) is Ok,
    ensures
        exists|calls: Seq<Offer>|
            {
                &&& calls.len() >= 1
                &&& (#[trigger] inflate_report(calls)).status == ReturnCode::Z_STREAM_END
                &&& uncompress_spec(input, initial_size, multiplier) == Ok::<Seq<u8>, ReturnCode>(
                    inflate_report(calls).produced,
                )
            },
{
    lemma_success_from(input, Seq::<Offer>::empty(), initial_size, multiplier);
    let calls = choose|later: Seq<Offer>|
        {
            &&& later.len() > 0
            &&& (#[trigger] inflate_report(later)).status == ReturnCode::Z_STREAM_END
            &&& uncompress_from(input, Seq::<Offer>::empty(), initial_size, multiplier) == Ok::<
                Seq<u8>,
                ReturnCode,
            >(inflate_report(later).produced)
        };
    assert(inflate_report(calls).status == ReturnCode::Z_STREAM_END);
}

/// The error of a decompression is never the end of the stream.
pub proof fn lemma_uncompress_error_is_no_end(
    input: Seq<u8>,
    initial_size: nat,
    multiplier: nat,
)
    requires
        initial_size >= 1,
        multiplier >= 2,
    ensures
        uncompress_spec(input, initial_size, multiplier) != Err::<Seq<u8>, ReturnCode>(
            ReturnCode::Z_STREAM_END,
        ),
{
    lemma_error_from(input, Seq::<Offer>::empty(), initial_size, multiplier);
}

proof fn lemma_error_from(input: Seq<u8>, offers: Seq<Offer>, capacity: nat, multiplier: nat)
    requires
        capacity >= 1,
        multiplier >= 2,
    ensures
        uncompress_from(input, offers, capacity, multiplier) != Err::<Seq<u8>, ReturnCode>(
            ReturnCode::Z_STREAM_END,
        ),
    decreases MAX_CAPACITY - capacity,
{
    let before = inflate_report(offers);
    let offer = Offer {
        input: input.skip(before.consumed as int),
        space: (capacity - before.produced.len()) as nat,
    };
    let next = offers.push(offer);
    let after = inflate_report(next);
    if wants_room(after.status, (input.len() - after.consumed) as nat) && capacity * multiplier
        <= MAX_CAPACITY {
        assert(capacity * multiplier > capacity) by (nonlinear_arith)
            requires
                capacity >= 1,
                multiplier >= 2,
        ;
        lemma_error_from(input, next, capacity * multiplier, multiplier);
    }
}

/// Decompresses the gzip stream `input` with a first buffer of 128 KiB that
/// grows eightfold.
pub fn uncompress(input: &[u8]) -> (r: Result<Vec<u8>, ReturnCode>)
    ensures
        view_of(r) == uncompress_spec(
            input@,
            DEFAULT_INITIAL_SIZE as nat,
            DEFAULT_MULTIPLIER as nat,
        ),
        input@.len() < 2 ==> view_of(r) == Err::<Seq<u8>, ReturnCode>(ReturnCode::Z_BUF_ERROR),
        input@.len() >= 2 && !has_gzip_magic(input@) ==> view_of(r) == Err::<Seq<u8>, ReturnCode>(
            ReturnCode::Z_DATA_ERROR,
        ),
        !has_gzip_magic(input@) ==> r is Err,
{
    uncompress_config(input, DEFAULT_INITIAL_SIZE, DEFAULT_MULTIPLIER)
}

/// Decompresses `input` with the default buffer sizes where that cannot
/// fail. A caller that cannot show so beforehand uses `uncompress`, or
/// `try_uncompress`.
pub fn must_uncompress(input: &[u8]) -> (output: Vec<u8>)
    requires
        uncompress_spec(input@, DEFAULT_INITIAL_SIZE as nat, DEFAULT_MULTIPLIER as nat) is Ok,
    ensures
        Ok::<Seq<u8>, ReturnCode>(output@) == uncompress_spec(
            input@,
            DEFAULT_INITIAL_SIZE as nat,
            DEFAULT_MULTIPLIER as nat,
        ),
{
    match uncompress(input) {
        Ok(output) => output,
        Err(_) => Vec::new(),
    }
}

/// Runs `must_uncompress` where it may be called: the engine is tried on
/// `input` first, and `None` says that it faulted.
pub fn try_uncompress(input: &[u8]) -> (r: Option<Vec<u8>>)
    ensures
        match r {
            Some(output) => uncompress_spec(
                input@,
                DEFAULT_INITIAL_SIZE as nat,
                DEFAULT_MULTIPLIER as nat,
            ) == Ok::<Seq<u8>, ReturnCode>(output@),
            None => uncompress_spec(
                input@,
                DEFAULT_INITIAL_SIZE as nat,
                DEFAULT_MULTIPLIER as nat,
            ) is Err,
        },
        !has_gzip_magic(input@) ==> r is None,
{
    match uncompress(input) {
        Ok(_) => Some(must_uncompress(input)),
        Err(_) => None,
    }
}

} // verus!
