//! One-shot gzip compression and decompression on byte buffers.
//!
//! The DEFLATE codec itself is the `zlib-rs` engine. This crate is the driver
//! around it: it sizes the output buffer, feeds the whole input in one pass,
//! reads the engine's status codes, grows the output buffer when the engine
//! runs out of room, and cuts the result to the bytes that were produced.

pub mod codes;
pub mod compress;
pub mod engine;
pub mod header;
pub mod stream;
pub mod uncompress;

pub use codes::{CompressionLevel, FlushCode, ReturnCode};
pub use compress::{compress, try_compress, compress_level, must_compress};
pub use header::GzHeader;
pub use stream::{Codec, Direction, ZStream};
pub use uncompress::{must_uncompress, uncompress, try_uncompress, uncompress_config};
