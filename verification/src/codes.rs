//! The closed sets of codes that the driver and the engine exchange.

use vstd::prelude::*;

verus! {

/// Window size, as the engine counts it, that selects gzip framing with a 32 KiB window.
pub const GZIP_WBITS: i32 = 31;

/// Output space reserved for the gzip frame, on top of the engine's own bound.
pub const GZIP_HEADER_BOUND: usize = 16;

/// The largest buffer that can be asked for: no allocation may pass half
/// the address space.
pub const MAX_CAPACITY: usize = usize::MAX / 2;

/// How the engine is told to treat the input it is handed.
#[allow(non_camel_case_types)]
#[derive(Clone, Copy, Debug, PartialEq, Eq, Structural)]
pub enum FlushCode {
    /// All the input is present; the stream is to be completed.
    Z_FINISH,
}

impl FlushCode {
    /// The number zlib gives this flush mode.
    pub open spec fn spec_code(self) -> int {
        4
    }

    pub fn code(self) -> (c: i32)
        ensures
            c == self.spec_code(),
    {
        4
    }
}

/// Status of one engine operation; also the error that the driver reports.
#[allow(non_camel_case_types)]
#[derive(Clone, Copy, Debug, PartialEq, Eq, Structural)]
pub enum ReturnCode {
    Z_OK,
    Z_STREAM_END,
    Z_NEED_DICT,
    Z_ERRNO,
    Z_STREAM_ERROR,
    Z_DATA_ERROR,
    Z_MEM_ERROR,
    Z_BUF_ERROR,
    Z_VERSION_ERROR,
}

impl ReturnCode {
    /// The number zlib gives this status.
    pub open spec fn spec_code(self) -> int {
        match self {
            ReturnCode::Z_OK => 0,
            ReturnCode::Z_STREAM_END => 1,
            ReturnCode::Z_NEED_DICT => 2,
            ReturnCode::Z_ERRNO => -1,
            ReturnCode::Z_STREAM_ERROR => -2,
            ReturnCode::Z_DATA_ERROR => -3,
            ReturnCode::Z_MEM_ERROR => -4,
            ReturnCode::Z_BUF_ERROR => -5,
            ReturnCode::Z_VERSION_ERROR => -6,
        }
    }

    /// The status that carries the number `code`, if there is one.
    pub open spec fn spec_from_code(code: int) -> Option<ReturnCode> {
        if code == 0 {
            Some(ReturnCode::Z_OK)
        } else if code == 1 {
            Some(ReturnCode::Z_STREAM_END)
        } else if code == 2 {
            Some(ReturnCode::Z_NEED_DICT)
        } else if code == -1 {
            Some(ReturnCode::Z_ERRNO)
        } else if code == -2 {
            Some(ReturnCode::Z_STREAM_ERROR)
        } else if code == -3 {
            Some(ReturnCode::Z_DATA_ERROR)
        } else if code == -4 {
            Some(ReturnCode::Z_MEM_ERROR)
        } else if code == -5 {
            Some(ReturnCode::Z_BUF_ERROR)
        } else if code == -6 {
            Some(ReturnCode::Z_VERSION_ERROR)
        } else {
            None
        }
    }

    /// The name zlib gives this status.
    pub open spec fn spec_name(self) -> Seq<char> {
        match self {
            ReturnCode::Z_OK => "Z_OK"@,
            ReturnCode::Z_STREAM_END => "Z_STREAM_END"@,
            ReturnCode::Z_NEED_DICT => "Z_NEED_DICT"@,
            ReturnCode::Z_ERRNO => "Z_ERRNO"@,
            ReturnCode::Z_STREAM_ERROR => "Z_STREAM_ERROR"@,
            ReturnCode::Z_DATA_ERROR => "Z_DATA_ERROR"@,
            ReturnCode::Z_MEM_ERROR => "Z_MEM_ERROR"@,
            ReturnCode::Z_BUF_ERROR => "Z_BUF_ERROR"@,
            ReturnCode::Z_VERSION_ERROR => "Z_VERSION_ERROR"@,
        }
    }

    pub fn code(self) -> (c: i32)
        ensures
            c == self.spec_code(),
    {
        match self {
            ReturnCode::Z_OK => 0,
            ReturnCode::Z_STREAM_END => 1,
            ReturnCode::Z_NEED_DICT => 2,
            ReturnCode::Z_ERRNO => -1,
            ReturnCode::Z_STREAM_ERROR => -2,
            ReturnCode::Z_DATA_ERROR => -3,
            ReturnCode::Z_MEM_ERROR => -4,
            ReturnCode::Z_BUF_ERROR => -5,
            ReturnCode::Z_VERSION_ERROR => -6,
        }
    }

    pub fn from_code(code: i32) -> (r: Option<ReturnCode>)
        ensures
            r == Self::spec_from_code(code as int),
    {
        match code {
            0 => Some(ReturnCode::Z_OK),
            1 => Some(ReturnCode::Z_STREAM_END),
            2 => Some(ReturnCode::Z_NEED_DICT),
            -1 => Some(ReturnCode::Z_ERRNO),
            -2 => Some(ReturnCode::Z_STREAM_ERROR),
            -3 => Some(ReturnCode::Z_DATA_ERROR),
            -4 => Some(ReturnCode::Z_MEM_ERROR),
            -5 => Some(ReturnCode::Z_BUF_ERROR),
            -6 => Some(ReturnCode::Z_VERSION_ERROR),
            _ => None,
        }
    }

    pub fn name(self) -> (s: &'static str)
        ensures
            s@ == self.spec_name(),
    {
        match self {
            ReturnCode::Z_OK => "Z_OK",
            ReturnCode::Z_STREAM_END => "Z_STREAM_END",
            ReturnCode::Z_NEED_DICT => "Z_NEED_DICT",
            ReturnCode::Z_ERRNO => "Z_ERRNO",
            ReturnCode::Z_STREAM_ERROR => "Z_STREAM_ERROR",
            ReturnCode::Z_DATA_ERROR => "Z_DATA_ERROR",
            ReturnCode::Z_MEM_ERROR => "Z_MEM_ERROR",
            ReturnCode::Z_BUF_ERROR => "Z_BUF_ERROR",
            ReturnCode::Z_VERSION_ERROR => "Z_VERSION_ERROR",
        }
    }
}

/// Every status is found again from its number.
pub proof fn lemma_code_round_trip(status: ReturnCode)
    ensures
        ReturnCode::spec_from_code(status.spec_code()) == Some(status),
{
}

/// How hard the engine tries to compress.
#[allow(non_camel_case_types)]
#[derive(Clone, Copy, Debug, PartialEq, Eq, Structural)]
pub enum CompressionLevel {
    Z_NO_COMPRESSION,
    Z_BEST_SPEED,
    Z_BALANCED_COMPRESSION,
    Z_BEST_COMPRESSION,
    /// The engine's own choice.
    Z_DEFAULT_COMPRESSION,
}

impl CompressionLevel {
    /// The number zlib gives this level.
    pub open spec fn spec_level(self) -> int {
        match self {
            CompressionLevel::Z_NO_COMPRESSION => 0,
            CompressionLevel::Z_BEST_SPEED => 1,
            CompressionLevel::Z_BALANCED_COMPRESSION => 5,
            CompressionLevel::Z_BEST_COMPRESSION => 9,
            CompressionLevel::Z_DEFAULT_COMPRESSION => -1,
        }
    }

    pub fn level(self) -> (l: i32)
        ensures
            l == self.spec_level(),
    {
        match self {
            CompressionLevel::Z_NO_COMPRESSION => 0,
            CompressionLevel::Z_BEST_SPEED => 1,
            CompressionLevel::Z_BALANCED_COMPRESSION => 5,
            CompressionLevel::Z_BEST_COMPRESSION => 9,
            CompressionLevel::Z_DEFAULT_COMPRESSION => -1,
        }
    }
}

} // verus!
