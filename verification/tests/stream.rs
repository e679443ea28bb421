use gzip::{
    uncompress, CompressionLevel, Direction, FlushCode, GzHeader, ReturnCode, ZStream,
};

#[test]
fn fresh_streams_stand_at_zero() {
    let stream = ZStream::init_compress(CompressionLevel::Z_BEST_SPEED, 12, 40);
    assert_eq!((stream.avail_in, stream.total_in, stream.avail_out, stream.total_out), (12, 0, 40, 0));
    assert_eq!(stream.header, GzHeader::new());
    assert_eq!(stream.end(), ReturnCode::Z_OK);

    let stream = ZStream::init_decompress(3, 9);
    assert_eq!((stream.avail_in, stream.total_in, stream.avail_out, stream.total_out), (3, 0, 9, 0));
    assert_eq!(stream.header, GzHeader::new());
    assert_eq!(stream.end(), ReturnCode::Z_OK);
}

#[test]
fn header_is_for_compressing_streams_only() {
    let header = GzHeader { text: 1, time: 5, xflags: 0, os: 3, done: 0 };

    let mut stream = ZStream::init_compress(CompressionLevel::Z_DEFAULT_COMPRESSION, 0, 64);
    assert_eq!(stream.set_header(header), ReturnCode::Z_OK);
    assert_eq!(stream.header, header);

    let mut stream = ZStream::init_decompress(0, 64);
    assert_eq!(stream.set_header(header), ReturnCode::Z_STREAM_ERROR);
    assert_eq!(stream.header, GzHeader::new());
}

#[test]
fn one_call_compresses_into_enough_room() {
    let input = b"abc\n";
    let mut output = vec![0u8; 64];
    let mut stream =
        ZStream::init_compress(CompressionLevel::Z_DEFAULT_COMPRESSION, input.len(), output.len());
    let header = GzHeader { text: 1, time: 0x0605_0403, xflags: 0, os: 7, done: 0 };
    assert_eq!(stream.set_header(header), ReturnCode::Z_OK);
    assert_eq!(stream.process(input, &mut output, FlushCode::Z_FINISH), ReturnCode::Z_STREAM_END);
    assert_eq!(stream.total_in, 4);
    assert_eq!(stream.avail_in, 0);
    assert_eq!(stream.total_out, 24);
    assert_eq!(stream.avail_out, 40);
    assert_eq!(
        &output[..24],
        &[
            0x1f, 0x8b, 0x08, 0x01, 0x03, 0x04, 0x05, 0x06, 0x00, 0x07, 0x4b, 0x4c, 0x4a, 0xe6,
            0x02, 0x00, 0x4e, 0x81, 0x88, 0x47, 0x04, 0x00, 0x00, 0x00,
        ]
    );
    assert_eq!(stream.set_header(GzHeader::new()), ReturnCode::Z_STREAM_ERROR);
    assert_eq!(stream.header, header);
    assert_eq!(stream.end(), ReturnCode::Z_OK);
    assert_eq!(uncompress(&output[..24]), Ok(input.to_vec()));
}

#[test]
fn a_stream_starts_with_the_default_header() {
    let input = b"abc\n";
    let mut output = vec![0u8; 64];
    let mut stream =
        ZStream::init_compress(CompressionLevel::Z_DEFAULT_COMPRESSION, input.len(), output.len());
    assert_eq!(stream.process(input, &mut output, FlushCode::Z_FINISH), ReturnCode::Z_STREAM_END);
    assert_eq!(stream.total_out, 24);
    assert_eq!(&output[..10], &[0x1f, 0x8b, 0x08, 0, 0, 0, 0, 0, 0, 0]);
    assert_eq!(&output[10..24], &[0x4b, 0x4c, 0x4a, 0xe6, 0x02, 0x00, 0x4e, 0x81, 0x88, 0x47, 4, 0, 0, 0]);
    assert_eq!(stream.end(), ReturnCode::Z_OK);
}

#[test]
fn compression_without_room_does_not_reach_the_end() {
    let input = b"abc\n";
    let mut output = vec![0u8; 5];
    let mut stream =
        ZStream::init_compress(CompressionLevel::Z_DEFAULT_COMPRESSION, input.len(), output.len());
    let status = stream.process(input, &mut output, FlushCode::Z_FINISH);
    assert_eq!(status, ReturnCode::Z_OK);
    assert_eq!(stream.total_out, 5);
    assert_eq!(stream.avail_out, 0);
    assert_eq!(output, vec![0x1f, 0x8b, 0x08, 0, 0]);
    assert_eq!(stream.end(), ReturnCode::Z_OK);
}

#[test]
fn decompression_resumes_after_the_buffer_was_replaced() {
    let compressed: &[u8] = &[
        0x1f, 0x8b, 0x08, 0x00, 0x00, 0x00, 0x00, 0x00, 0x00, 0x00, 0x4b, 0x4c, 0x4a, 0xe6, 0x02,
        0x00, 0x4e, 0x81, 0x88, 0x47, 0x04, 0x00, 0x00, 0x00,
    ];
    let mut output = vec![0u8; 3];
    let mut stream = ZStream::init_decompress(compressed.len(), output.len());
    assert_eq!(stream.process(compressed, &mut output, FlushCode::Z_FINISH), ReturnCode::Z_BUF_ERROR);
    assert_eq!(stream.total_out, 3);
    assert_eq!(stream.avail_out, 0);
    assert!(stream.avail_in > 0);
    assert_eq!(stream.total_in + stream.avail_in, compressed.len());
    assert_eq!(output, b"abc".to_vec());

    let mut output = gzip::uncompress::grow(&output, stream.total_out, 2).unwrap();
    stream.repoint(output.len());
    assert_eq!(stream.avail_out, 3);
    assert_eq!(stream.total_out, 3);

    assert_eq!(stream.process(compressed, &mut output, FlushCode::Z_FINISH), ReturnCode::Z_STREAM_END);
    assert_eq!(stream.total_out, 4);
    assert_eq!(stream.avail_out, 2);
    assert_eq!(stream.total_in, compressed.len());
    assert_eq!(stream.avail_in, 0);
    assert_eq!(&output[..4], b"abc\n");
    assert_eq!(stream.end(), ReturnCode::Z_OK);
}

#[test]
fn directions_differ() {
    assert!(Direction::Compress != Direction::Decompress);
}
