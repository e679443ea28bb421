//! The codec engine, as far as the driver relies on it.
//!
//! Nothing in this file is proved. The engine is the `zlib-rs` crate; what
//! follows declares its two stream types, names what its calls return, and
//! says of each call only the bookkeeping that the driver's proofs need.

use vstd::prelude::*;
use crate::codes::{FlushCode, ReturnCode, GZIP_WBITS};

verus! {

/// `zlib_rs::Deflate`, a compressing stream. Opaque here.
#[verifier::external_type_specification]
#[verifier::external_body]
pub struct ExDeflate(zlib_rs::Deflate);

/// `zlib_rs::Inflate`, a decompressing stream. Opaque here.
#[verifier::external_type_specification]
#[verifier::external_body]
pub struct ExInflate(zlib_rs::Inflate);

/// What one call hands to an engine: the input bytes not yet consumed, and
/// the number of output bytes that may be written.
pub struct Offer {
    pub input: Seq<u8>,
    pub space: nat,
}

/// Where an engine stands after a call.
pub struct Report {
    /// Status of the call.
    pub status: ReturnCode,
    /// Input bytes consumed since the stream was made.
    pub consumed: nat,
    /// Output bytes produced since the stream was made.
    pub produced: Seq<u8>,
}

/// The level that a compressing stream was made with.
pub uninterp spec fn deflate_level(engine: zlib_rs::Deflate) -> int;

/// The calls that a compressing stream has served since it was made, oldest first.
pub uninterp spec fn deflate_offers(engine: zlib_rs::Deflate) -> Seq<Offer>;

/// Where a gzip compressing stream made at `level` stands once it has served
/// `offers`, each with the finishing flush. The byte at `PLATFORM_INDEX` of
/// what the engine writes is its code for the platform it was built for;
/// no contract ties that byte of `produced` to what the engine wrote.
pub uninterp spec fn deflate_report(level: int, offers: Seq<Offer>) -> Report;

/// The calls that a decompressing stream has served since it was made, oldest first.
pub uninterp spec fn inflate_offers(engine: zlib_rs::Inflate) -> Seq<Offer>;

/// Where a gzip decompressing stream stands once it has served `offers`, each
/// with the finishing flush.
pub uninterp spec fn inflate_report(offers: Seq<Offer>) -> Report;

/// The engine's estimate of the room that compressing `len` bytes can take.
pub uninterp spec fn compress_bound_of(len: nat) -> nat;

/// The bookkeeping of one call that wrote into `output` from index `start`
/// on: the counters only grow, by no more than was offered, what was
/// produced before is still the start of what is produced now, and in
/// `output` neither the length nor a byte below `start` has changed.
pub open spec fn step_holds(
    before: Report,
    after: Report,
    input: Seq<u8>,
    old_output: Seq<u8>,
    new_output: Seq<u8>,
    start: int,
) -> bool {
    let written = after.produced.len() - before.produced.len();
    &&& before.consumed <= after.consumed <= before.consumed + input.len()
    &&& 0 <= written <= old_output.len() - start
    &&& after.produced.take(before.produced.len() as int) == before.produced
    &&& new_output.len() == old_output.len()
    &&& new_output.take(start) == old_output.take(start)
}

/// Index, in a gzip stream, of the byte that names the platform.
pub const PLATFORM_INDEX: usize = 9;

/// The bytes newly produced lie in `output` from `start` on, in order.
/// With `but_platform`, nothing is said of the byte at `PLATFORM_INDEX` of
/// the stream. Nothing is said of `output` above what was produced.
pub open spec fn wrote(
    before: Report,
    after: Report,
    output: Seq<u8>,
    start: int,
    but_platform: bool,
) -> bool {
    forall|i: int|
        before.produced.len() <= i < after.produced.len() && !(but_platform && i
            == PLATFORM_INDEX) ==> output[start + (i - before.produced.len())]
            == #[trigger] after.produced[i]
}

/// Whether `input` begins with the two bytes that open every gzip stream.
pub open spec fn has_gzip_magic(input: Seq<u8>) -> bool {
    input.len() >= 2 && input[0] == 0x1f && input[1] == 0x8b
}

/// What a fresh gzip decompressing stream does with input that lacks the
/// gzip magic: with fewer than two bytes it takes them all and asks for
/// more, otherwise it refuses the data.
pub open spec fn refuses_without_magic(input: Seq<u8>, after: Report) -> bool {
    &&& input.len() < 2 ==> after.status == ReturnCode::Z_BUF_ERROR && after.consumed
        == input.len()
    &&& input.len() >= 2 && !has_gzip_magic(input) ==> after.status == ReturnCode::Z_DATA_ERROR
}

/// `zlib_rs::compress_bound`. Claimed: its result depends on the length alone.
pub assume_specification[ zlib_rs::compress_bound ](source_len: usize) -> (bound: usize)
    ensures
        bound == compress_bound_of(source_len as nat),
;

/// `zlib_rs::Deflate::new_with_config`, asked for gzip framing at `level`
/// and the engine's defaults otherwise. Claimed: the new stream has served
/// no call, consumed nothing and produced nothing. The engine panics on a
/// level or window size that it does not know; `requires` leaves those out.
/// It also panics where it gets no memory for its state.
#[verifier::external_body]
pub(crate) fn deflate_new(level: i32, window_bits: i32) -> (engine: zlib_rs::Deflate)
    requires
        -1 <= level <= 9,
        window_bits == GZIP_WBITS,
    ensures
        deflate_level(engine) == level,
        deflate_offers(engine) == Seq::<Offer>::empty(),
        deflate_report(deflate_level(engine), deflate_offers(engine)).consumed == 0,
        deflate_report(deflate_level(engine), deflate_offers(engine)).produced.len() == 0,
{
    let mut config = zlib_rs::DeflateConfig::new(level);
    config.window_bits = window_bits;
    zlib_rs::Deflate::new_with_config(config)
}

/// `zlib_rs::Deflate::compress` on `input` and on `output` from `start` on.
/// Claimed: the call is added to those the stream has served, the status is
/// the one that the stream's report names, `step_holds`, and `wrote` but
/// for the platform byte.
#[verifier::external_body]
pub(crate) fn deflate_into(
    engine: &mut zlib_rs::Deflate,
    input: &[u8],
    output: &mut Vec<u8>,
    start: usize,
    flush: FlushCode,
) -> (status: ReturnCode)
    requires
        start <= old(output)@.len(),
    ensures
        deflate_level(*final(engine)) == deflate_level(*old(engine)),
        deflate_offers(*final(engine)) == deflate_offers(*old(engine)).push(
            Offer { input: input@, space: (old(output)@.len() - start) as nat },
        ),
        status == deflate_report(
            deflate_level(*final(engine)),
            deflate_offers(*final(engine)),
        ).status,
        step_holds(
            deflate_report(deflate_level(*old(engine)), deflate_offers(*old(engine))),
            deflate_report(deflate_level(*final(engine)), deflate_offers(*final(engine))),
            input@,
            old(output)@,
            final(output)@,
            start as int,
        ),
        wrote(
            deflate_report(deflate_level(*old(engine)), deflate_offers(*old(engine))),
            deflate_report(deflate_level(*final(engine)), deflate_offers(*final(engine))),
            final(output)@,
            start as int,
            true,
        ),
{
    let mode = match flush {
        FlushCode::Z_FINISH => zlib_rs::DeflateFlush::Finish,
    };
    match engine.compress(input, &mut output[start..], mode) {
        Ok(zlib_rs::Status::Ok) => ReturnCode::Z_OK,
        Ok(zlib_rs::Status::BufError) => ReturnCode::Z_BUF_ERROR,
        Ok(zlib_rs::Status::StreamEnd) => ReturnCode::Z_STREAM_END,
        Err(zlib_rs::DeflateError::StreamError) => ReturnCode::Z_STREAM_ERROR,
        Err(zlib_rs::DeflateError::DataError) => ReturnCode::Z_DATA_ERROR,
        Err(zlib_rs::DeflateError::MemError) => ReturnCode::Z_MEM_ERROR,
    }
}

/// `zlib_rs::Deflate::total_out`. Claimed: it counts the bytes produced.
pub assume_specification[ zlib_rs::Deflate::total_out ](engine: &zlib_rs::Deflate) -> (n: u64)
    ensures
        n == deflate_report(deflate_level(*engine), deflate_offers(*engine)).produced.len(),
;

/// `zlib_rs::Deflate::total_in`. Claimed: it counts the bytes consumed.
pub assume_specification[ zlib_rs::Deflate::total_in ](engine: &zlib_rs::Deflate) -> (n: u64)
    ensures
        n == deflate_report(deflate_level(*engine), deflate_offers(*engine)).consumed,
;

/// `zlib_rs::Inflate::new`, asked for gzip framing. Claimed: the new stream
/// has served no call, consumed nothing and produced nothing. The engine
/// panics on a window size that it does not know; `requires` leaves those out.
/// It also panics where it gets no memory for its state.
#[verifier::external_body]
pub(crate) fn inflate_new(window_bits: i32) -> (engine: zlib_rs::Inflate)
    requires
        window_bits == GZIP_WBITS,
    ensures
        inflate_offers(engine) == Seq::<Offer>::empty(),
        inflate_report(inflate_offers(engine)).consumed == 0,
        inflate_report(inflate_offers(engine)).produced.len() == 0,
{
    zlib_rs::Inflate::new(true, window_bits as u8)
}

/// `zlib_rs::Inflate::decompress` on `input` and on `output` from `start`
/// on. Claimed: the call is added to those the stream has served, the status
/// is the one that the stream's report names, `step_holds`, `wrote`, and a
/// stream that has served no call before `refuses_without_magic`.
#[verifier::external_body]
pub(crate) fn inflate_into(
    engine: &mut zlib_rs::Inflate,
    input: &[u8],
    output: &mut Vec<u8>,
    start: usize,
    flush: FlushCode,
) -> (status: ReturnCode)
    requires
        start <= old(output)@.len(),
    ensures
        inflate_offers(*final(engine)) == inflate_offers(*old(engine)).push(
            Offer { input: input@, space: (old(output)@.len() - start) as nat },
        ),
        status == inflate_report(inflate_offers(*final(engine))).status,
        step_holds(
            inflate_report(inflate_offers(*old(engine))),
            inflate_report(inflate_offers(*final(engine))),
            input@,
            old(output)@,
            final(output)@,
            start as int,
        ),
        wrote(
            inflate_report(inflate_offers(*old(engine))),
            inflate_report(inflate_offers(*final(engine))),
            final(output)@,
            start as int,
            false,
        ),
        inflate_offers(*old(engine)).len() == 0 ==> refuses_without_magic(
            input@,
            inflate_report(inflate_offers(*final(engine))),
        ),
{
    let mode = match flush {
        FlushCode::Z_FINISH => zlib_rs::InflateFlush::Finish,
    };
    match engine.decompress(input, &mut output[start..], mode) {
        Ok(zlib_rs::Status::Ok) => ReturnCode::Z_OK,
        Ok(zlib_rs::Status::BufError) => ReturnCode::Z_BUF_ERROR,
        Ok(zlib_rs::Status::StreamEnd) => ReturnCode::Z_STREAM_END,
        Err(zlib_rs::InflateError::NeedDict { .. }) => ReturnCode::Z_NEED_DICT,
        Err(zlib_rs::InflateError::StreamError) => ReturnCode::Z_STREAM_ERROR,
        Err(zlib_rs::InflateError::DataError) => ReturnCode::Z_DATA_ERROR,
        Err(zlib_rs::InflateError::MemError) => ReturnCode::Z_MEM_ERROR,
    }
}

/// `zlib_rs::Inflate::total_in`. Claimed: it counts the bytes consumed.
pub assume_specification[ zlib_rs::Inflate::total_in ](engine: &zlib_rs::Inflate) -> (n: u64)
    ensures
        n == inflate_report(inflate_offers(*engine)).consumed,
;

/// `zlib_rs::Inflate::total_out`. Claimed: it counts the bytes produced.
pub assume_specification[ zlib_rs::Inflate::total_out ](engine: &zlib_rs::Inflate) -> (n: u64)
    ensures
        n == inflate_report(inflate_offers(*engine)).produced.len(),
;

} // verus!
