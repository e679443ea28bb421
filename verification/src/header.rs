//! The metadata that a gzip stream carries in its first ten bytes.

use vstd::prelude::*;

verus! {

/// Header metadata for a compressed stream. A stream made by this library
/// carries no file name, no comment and no extra field, so the header is the
/// fixed ten bytes and this record holds what can be set in them.
#[derive(Clone, Copy, Debug, PartialEq, Eq, Structural)]
pub struct GzHeader {
    /// Nonzero if the data is believed to be text.
    pub text: i32,
    /// Modification time; its low 32 bits are written.
    pub time: u64,
    /// Extra flags. The engine derives this byte from the level and does not read the field.
    pub xflags: i32,
    /// Operating system; its low 8 bits are written.
    pub os: i32,
    /// Set by a reader when a header has been read in full. Not read when writing.
    pub done: i32,
}

impl GzHeader {
    /// The default metadata: every field zero.
    pub open spec fn spec_new() -> GzHeader {
        GzHeader { text: 0, time: 0, xflags: 0, os: 0, done: 0 }
    }

    pub fn new() -> (header: GzHeader)
        ensures
            header == Self::spec_new(),
    {
        GzHeader { text: 0, time: 0, xflags: 0, os: 0, done: 0 }
    }

    /// The byte that this header decides at index `i` of a stream, if it
    /// decides that byte: the flags at 3, the time at 4 to 7 with the low
    /// byte first, the operating system at 9.
    pub open spec fn byte_at(self, i: int) -> Option<u8> {
        if i == 3 {
            Some(
                if self.text != 0 {
                    1u8
                } else {
                    0u8
                },
            )
        } else if i == 4 {
            Some((self.time % 0x100) as u8)
        } else if i == 5 {
            Some((self.time / 0x100 % 0x100) as u8)
        } else if i == 6 {
            Some((self.time / 0x1_0000 % 0x100) as u8)
        } else if i == 7 {
            Some((self.time / 0x100_0000 % 0x100) as u8)
        } else if i == 9 {
            Some((self.os as int % 0x100) as u8)
        } else {
            None
        }
    }

    /// `stream` with every byte that this header decides set to the header's value.
    pub open spec fn frame(self, stream: Seq<u8>) -> Seq<u8> {
        Seq::new(
            stream.len(),
            |i: int|
                match self.byte_at(i) {
                    Some(b) => b,
                    None => stream[i],
                },
        )
    }

    /// The low 8 bits of the operating system field.
    fn os_byte(&self) -> (b: u8)
        ensures
            Some(b) == self.byte_at(9),
    {
        if self.os >= 0 {
            (self.os % 0x100) as u8
        } else {
            let below: i32 = -(self.os + 1);
            (0xff - below % 0x100) as u8
        }
    }

    /// Writes this header over the first `len` bytes of `output`.
    pub fn write_to(&self, output: &mut Vec<u8>, len: usize)
        requires
            len <= old(output)@.len(),
        ensures
            final(output)@ == self.frame(old(output)@.take(len as int)) + old(output)@.skip(
                len as int,
            ),
    {
        if 3 < len {
            output[3] = if self.text != 0 { 1 } else { 0 };
        }
        if 4 < len {
            output[4] = (self.time % 0x100) as u8;
        }
        if 5 < len {
            output[5] = (self.time / 0x100 % 0x100) as u8;
        }
        if 6 < len {
            output[6] = (self.time / 0x1_0000 % 0x100) as u8;
        }
        if 7 < len {
            output[7] = (self.time / 0x100_0000 % 0x100) as u8;
        }
        if 9 < len {
            output[9] = self.os_byte();
        }
        assert(output@ =~= self.frame(old(output)@.take(len as int)) + old(output)@.skip(
            len as int,
        ));
    }
}

} // verus!
