//! The state of one stream: the engine, the cursors into the caller's
//! buffers, and the header to be written.

use vstd::prelude::*;
use vstd::slice::slice_subrange;
use crate::codes::{CompressionLevel, FlushCode, ReturnCode, GZIP_WBITS};
use crate::engine::{
    deflate_into, deflate_level, deflate_new, deflate_offers, deflate_report, inflate_into,
    inflate_new, inflate_offers, inflate_report, refuses_without_magic, Offer, Report,
};
use crate::header::GzHeader;

verus! {

/// Which way a stream runs.
#[derive(Clone, Copy, Debug, PartialEq, Eq, Structural)]
pub enum Direction {
    Compress,
    Decompress,
}

/// The engine behind a stream.
pub enum Codec {
    Deflate(zlib_rs::Deflate),
    Inflate(zlib_rs::Inflate),
}

/// The state of one stream. It lives for one compression or decompression
/// and is handed the same input and the same output buffer at every call;
/// the cursors say where in them the engine stands.
pub struct ZStream {
    /// Input bytes not yet consumed.
    pub avail_in: usize,
    /// Input bytes consumed so far.
    pub total_in: usize,
    /// Output bytes that may still be written.
    pub avail_out: usize,
    /// Output bytes produced so far.
    pub total_out: usize,
    /// The header of a compressing stream. A decompressing stream does not read it.
    pub header: GzHeader,
    /// The engine's own state.
    pub state: Codec,
}

impl ZStream {
    /// Which way the stream runs.
    pub open spec fn direction(&self) -> Direction {
        match self.state {
            Codec::Deflate(_) => Direction::Compress,
            Codec::Inflate(_) => Direction::Decompress,
        }
    }

    /// The level of a compressing stream.
    pub open spec fn level(&self) -> int {
        match self.state {
            Codec::Deflate(engine) => deflate_level(engine),
            Codec::Inflate(_) => 0,
        }
    }

    /// The calls that the engine has served, oldest first.
    pub open spec fn offers(&self) -> Seq<Offer> {
        match self.state {
            Codec::Deflate(engine) => deflate_offers(engine),
            Codec::Inflate(engine) => inflate_offers(engine),
        }
    }

    /// Where an engine of this direction and level stands after `offers`.
    pub open spec fn report_after(&self, offers: Seq<Offer>) -> Report {
        match self.direction() {
            Direction::Compress => deflate_report(self.level(), offers),
            Direction::Decompress => inflate_report(offers),
        }
    }

    /// Where the engine stands.
    pub open spec fn report(&self) -> Report {
        self.report_after(self.offers())
    }

    /// The bytes of the stream so far: what the engine produced, and for a
    /// compressing stream that under the stream's header.
    pub open spec fn produced(&self) -> Seq<u8> {
        match self.direction() {
            Direction::Compress => self.header.frame(self.report().produced),
            Direction::Decompress => self.report().produced,
        }
    }

    /// The counters agree with the engine.
    pub open spec fn wf(&self) -> bool {
        &&& self.total_in == self.report().consumed
        &&& self.total_out == self.report().produced.len()
    }

    /// The stream is well formed, its cursors cover `input` and `output`
    /// exactly, and `output` begins with the bytes of the stream so far.
    pub open spec fn fits(&self, input: Seq<u8>, output: Seq<u8>) -> bool {
        &&& self.wf()
        &&& self.total_in + self.avail_in == input.len()
        &&& self.total_out + self.avail_out == output.len()
        &&& output.take(self.total_out as int) == self.produced()
    }

    /// What the next call will hand to the engine.
    pub open spec fn next_offer(&self, input: Seq<u8>) -> Offer {
        Offer { input: input.skip(self.total_in as int), space: self.avail_out as nat }
    }

    /// A compressing stream with gzip framing at `level`, about to read
    /// `avail_in` bytes and to write at most `avail_out`. Its header is the
    /// default one until another is set.
    pub fn init_compress(level: CompressionLevel, avail_in: usize, avail_out: usize) -> (stream:
        ZStream)
        ensures
            stream.direction() == Direction::Compress,
            stream.level() == level.spec_level(),
            stream.header == GzHeader::spec_new(),
            stream.offers() == Seq::<Offer>::empty(),
            stream.avail_in == avail_in,
            stream.avail_out == avail_out,
            stream.total_in == 0,
            stream.total_out == 0,
            stream.wf(),
    {
        let engine = deflate_new(level.level(), GZIP_WBITS);
        ZStream {
            avail_in,
            total_in: 0,
            avail_out,
            total_out: 0,
            header: GzHeader::new(),
            state: Codec::Deflate(engine),
        }
    }

    /// A decompressing stream for gzip framing, about to read `avail_in`
    /// bytes and to write at most `avail_out`.
    pub fn init_decompress(avail_in: usize, avail_out: usize) -> (stream: ZStream)
        ensures
            stream.direction() == Direction::Decompress,
            stream.header == GzHeader::spec_new(),
            stream.offers() == Seq::<Offer>::empty(),
            stream.avail_in == avail_in,
            stream.avail_out == avail_out,
            stream.total_in == 0,
            stream.total_out == 0,
            stream.wf(),
    {
        let engine = inflate_new(GZIP_WBITS);
        ZStream {
            avail_in,
            total_in: 0,
            avail_out,
            total_out: 0,
            header: GzHeader::new(),
            state: Codec::Inflate(engine),
        }
    }

    /// Sets the header of a compressing stream that has produced nothing
    /// yet. Any other stream is left as it is, with `Z_STREAM_ERROR`.
    pub fn set_header(&mut self, header: GzHeader) -> (status: ReturnCode)
        ensures
            status == if old(self).direction() == Direction::Compress && old(self).total_out == 0 {
                ReturnCode::Z_OK
            } else {
                ReturnCode::Z_STREAM_ERROR
            },
            status == ReturnCode::Z_OK ==> final(self).header == header,
            status != ReturnCode::Z_OK ==> final(self).header == old(self).header,
            final(self).direction() == old(self).direction(),
            final(self).level() == old(self).level(),
            final(self).offers() == old(self).offers(),
            final(self).avail_in == old(self).avail_in,
            final(self).avail_out == old(self).avail_out,
            final(self).total_in == old(self).total_in,
            final(self).total_out == old(self).total_out,
            old(self).wf() ==> final(self).wf(),
            forall|input: Seq<u8>, output: Seq<u8>|
                old(self).fits(input, output) ==> final(self).fits(input, output),
    {
        let compressing = match &self.state {
            Codec::Deflate(_) => true,
            Codec::Inflate(_) => false,
        };
        if compressing && self.total_out == 0 {
            self.header = header;
            proof {
                assert forall|input: Seq<u8>, output: Seq<u8>|
                    old(self).fits(input, output) implies self.fits(input, output) by {
                    assert(output.take(0) =~= self.produced());
                }
            }
            ReturnCode::Z_OK
        } else {
            ReturnCode::Z_STREAM_ERROR
        }
    }

    /// Makes room known to the stream after its output buffer was replaced
    /// by one of `capacity` bytes: what is left to write is `capacity` less
    /// what was produced.
    pub fn repoint(&mut self, capacity: usize)
        requires
            old(self).total_out <= capacity,
        ensures
            final(self).avail_out == capacity - old(self).total_out,
            final(self).direction() == old(self).direction(),
            final(self).level() == old(self).level(),
            final(self).header == old(self).header,
            final(self).offers() == old(self).offers(),
            final(self).avail_in == old(self).avail_in,
            final(self).total_in == old(self).total_in,
            final(self).total_out == old(self).total_out,
            old(self).wf() ==> final(self).wf(),
    {
        self.avail_out = capacity - self.total_out;
    }

    /// One call of the engine: it reads `input` from where it stopped and
    /// writes into `output` from where it stopped. The cursors are moved to
    /// where the engine now stands and, on a compressing stream, the header
    /// is written over what was produced.
    pub fn process(&mut self, input: &[u8], output: &mut Vec<u8>, flush: FlushCode) -> (status:
        ReturnCode)
        requires
            old(self).fits(input@, old(output)@),
        ensures
            final(self).direction() == old(self).direction(),
            final(self).level() == old(self).level(),
            final(self).header == old(self).header,
            final(self).offers() == old(self).offers().push(old(self).next_offer(input@)),
            status == final(self).report().status,
            final(self).fits(input@, final(output)@),
            final(output)@.len() == old(output)@.len(),
            old(self).total_in <= final(self).total_in,
            old(self).total_out <= final(self).total_out,
            final(self).report().produced.take(old(self).total_out as int) == old(
                self,
            ).report().produced,
            old(self).direction() == Direction::Decompress && old(self).offers().len() == 0
                && old(self).total_in == 0 ==> refuses_without_magic(
                input@,
                final(self).report(),
            ),
    {
        let rest = slice_subrange(input, self.total_in, input.len());
        let start = self.total_out;
        let ghost before = self.report();
        let ghost old_output = output@;
        assert(self.total_in == 0 ==> rest@ == input@) by {
            if self.total_in == 0 {
                assert(rest@ =~= input@);
            }
        }
        assert(rest@ == input@.skip(self.total_in as int));
        let (status, total_in, total_out) = match &mut self.state {
            Codec::Deflate(engine) => {
                let status = deflate_into(engine, rest, output, start, flush);
                (status, engine.total_in(), engine.total_out())
            },
            Codec::Inflate(engine) => {
                let status = inflate_into(engine, rest, output, start, flush);
                (status, engine.total_in(), engine.total_out())
            },
        };
        let ghost after = self.report();
        let ghost raw_output = output@;
        assert(total_in <= input.len());
        assert(total_out <= output.len());
        self.total_in = total_in as usize;
        self.total_out = total_out as usize;
        self.avail_in = input.len() - self.total_in;
        self.avail_out = output.len() - self.total_out;
        match &self.state {
            Codec::Deflate(_) => {
                self.header.write_to(output, self.total_out);
            },
            Codec::Inflate(_) => {},
        }
        proof {
            let produced = self.produced();
            let shown = output@.take(self.total_out as int);
            assert(shown.len() == produced.len());
            assert forall|i: int| 0 <= i < shown.len() implies shown[i] == produced[i] by {
                if i < start {
                    assert(raw_output[i] == raw_output.take(start as int)[i]);
                    assert(old_output[i] == old_output.take(start as int)[i]);
                    assert(after.produced[i] == after.produced.take(start as int)[i]);
                } else {
                    assert(raw_output[start + (i - start)] == raw_output[i]);
                }
            }
            assert(shown =~= produced);
        }
        status
    }

    /// Releases the engine. This engine reports nothing when it is
    /// released, so the status is always `Z_OK`.
    pub fn end(self) -> (status: ReturnCode)
        ensures
            status == ReturnCode::Z_OK,
    {
        ReturnCode::Z_OK
    }
}

} // verus!
