//! Compression of a whole buffer into a gzip stream.

use vstd::prelude::*;
use crate::codes::{CompressionLevel, FlushCode, ReturnCode, GZIP_HEADER_BOUND, MAX_CAPACITY};
use crate::engine::{compress_bound_of, deflate_report, Offer};
use crate::header::GzHeader;
use crate::stream::ZStream;

verus! {

/// A driver's result with the bytes as a sequence.
pub open spec fn view_of(r: Result<Vec<u8>, ReturnCode>) -> Result<Seq<u8>, ReturnCode> {
    match r {
        Ok(bytes) => Ok(bytes@),
        Err(code) => Err(code),
    }
}

/// What compression returns, given the status of the one engine call, the
/// status of releasing the engine, and the bytes that were produced. An
/// engine that did not reach the end of the stream in a buffer sized for it
/// is a buffer fault; any other status but the end of the stream is handed
/// on; then a fault in releasing is handed on.
pub open spec fn compress_outcome_spec(
    process: ReturnCode,
    end: ReturnCode,
    produced: Seq<u8>,
) -> Result<Seq<u8>, ReturnCode> {
    if process == ReturnCode::Z_OK {
        Err(ReturnCode::Z_BUF_ERROR)
    } else if process != ReturnCode::Z_STREAM_END {
        Err(process)
    } else if end == ReturnCode::Z_OK {
        Ok(produced)
    } else {
        Err(end)
    }
}

/// Resolves a compression: `output` cut to its first `total_out` bytes on
/// success, the error otherwise.
pub fn compress_outcome(
    process: ReturnCode,
    end: ReturnCode,
    output: Vec<u8>,
    total_out: usize,
) -> (r: Result<Vec<u8>, ReturnCode>)
    requires
        total_out <= output@.len(),
    ensures
        view_of(r) == compress_outcome_spec(process, end, output@.take(total_out as int)),
{
    match process {
        ReturnCode::Z_OK => Err(ReturnCode::Z_BUF_ERROR),
        ReturnCode::Z_STREAM_END => match end {
            ReturnCode::Z_OK => {
                let mut output = output;
                output.truncate(total_out);
                Ok(output)
            },
            _ => Err(end),
        },
        _ => Err(process),
    }
}

/// The room that compression of `len` bytes is given: the engine's bound
/// and the reserve for the gzip frame.
pub open spec fn output_capacity(len: nat) -> nat {
    compress_bound_of(len) + GZIP_HEADER_BOUND as nat
}

/// What `compress_level` returns. The engine is made at `level`, handed all
/// of `input` and `output_capacity` bytes of room in one finishing call, and
/// its stream is framed with the default header. A room above
/// `MAX_CAPACITY` is a memory fault.
pub open spec fn compress_spec(input: Seq<u8>, level: CompressionLevel) -> Result<
    Seq<u8>,
    ReturnCode,
> {
    let capacity = output_capacity(input.len());
    if capacity > MAX_CAPACITY {
        Err(ReturnCode::Z_MEM_ERROR)
    } else {
        let report = deflate_report(level.spec_level(), seq![Offer { input, space: capacity }]);
        compress_outcome_spec(
            report.status,
            ReturnCode::Z_OK,
            GzHeader::spec_new().frame(report.produced),
        )
    }
}

/// No success is cut short: where compression succeeds, the engine reported
/// the end of the stream in its one call, and the result is all that it
/// produced, under the default header.
pub proof fn lemma_success_is_whole_stream(input: Seq<u8>, level: CompressionLevel)
    requires
        compress_spec(input, level) is Ok,
    ensures
        output_capacity(input.len()) <= MAX_CAPACITY,
        ({
            let offer = Offer { input, space: output_capacity(input.len()) };
            let report = deflate_report(level.spec_level(), seq![offer]);
            &&& report.status == ReturnCode::Z_STREAM_END
            &&& compress_spec(input, level) == Ok::<Seq<u8>, ReturnCode>(
                GzHeader::spec_new().frame(report.produced),
            )
        }),
{
}

/// The error of a compression is never a status of success.
pub proof fn lemma_error_is_no_success(input: Seq<u8>, level: CompressionLevel)
    ensures
        compress_spec(input, level) != Err::<Seq<u8>, ReturnCode>(ReturnCode::Z_OK),
        compress_spec(input, level) != Err::<Seq<u8>, ReturnCode>(ReturnCode::Z_STREAM_END),
{
}

/// Compresses `input` into a gzip stream at `level`.
pub fn compress_level(input: &[u8], level: CompressionLevel) -> (r: Result<Vec<u8>, ReturnCode>)
    ensures
        view_of(r) == compress_spec(input@, level),
{
    let bound = zlib_rs::compress_bound(input.len());
    if bound > MAX_CAPACITY - GZIP_HEADER_BOUND {
        return Err(ReturnCode::Z_MEM_ERROR);
    }
    let output_len = bound + GZIP_HEADER_BOUND;
    let mut output = vec![0u8; output_len];
    let mut stream = ZStream::init_compress(level, input.len(), output_len);
    assert(output@.take(0) =~= stream.produced());

    let header_status = stream.set_header(GzHeader::new());
    if header_status != ReturnCode::Z_OK {
        let _ = stream.end();
        return Err(header_status);
    }
    let status = stream.process(input, &mut output, FlushCode::Z_FINISH);
    let total_out = stream.total_out;
    let end_status = stream.end();
    proof {
        let offer = Offer { input: input@, space: output_capacity(input@.len()) };
        assert(input@.skip(0) =~= input@);
        assert(Seq::<Offer>::empty().push(offer) =~= seq![offer]);
    }
    compress_outcome(status, end_status, output, total_out)
}

/// Compresses `input` into a gzip stream at the engine's default level.
pub fn compress(input: &[u8]) -> (r: Result<Vec<u8>, ReturnCode>)
    ensures
        view_of(r) == compress_spec(input@, CompressionLevel::Z_DEFAULT_COMPRESSION),
{
    compress_level(input, CompressionLevel::Z_DEFAULT_COMPRESSION)
}

/// Compresses `input` at the default level where that cannot fail. A caller
/// that cannot show so beforehand uses `compress`, or `try_compress`.
pub fn must_compress(input: &[u8]) -> (output: Vec<u8>)
    requires
        compress_spec(input@, CompressionLevel::Z_DEFAULT_COMPRESSION) is Ok,
    ensures
        Ok::<Seq<u8>, ReturnCode>(output@) == compress_spec(
            input@,
            CompressionLevel::Z_DEFAULT_COMPRESSION,
        ),
{
    match compress(input) {
        Ok(output) => output,
        Err(_) => Vec::new(),
    }
}

/// Runs `must_compress` where it may be called: the engine is tried on
/// `input` first, and `None` says that it faulted.
pub fn try_compress(input: &[u8]) -> (r: Option<Vec<u8>>)
    ensures
        match r {
            Some(output) => compress_spec(input@, CompressionLevel::Z_DEFAULT_COMPRESSION) == Ok::<
                Seq<u8>,
                ReturnCode,
            >(output@),
            None => compress_spec(input@, CompressionLevel::Z_DEFAULT_COMPRESSION) is Err,
        },
{
    match compress(input) {
        Ok(_) => Some(must_compress(input)),
        Err(_) => None,
    }
}

} // verus!
