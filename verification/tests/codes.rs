use gzip::{CompressionLevel, FlushCode, ReturnCode};

fn all_codes() -> Vec<(ReturnCode, i32, &'static str)> {
    vec![
        (ReturnCode::Z_OK, 0, "Z_OK"),
        (ReturnCode::Z_STREAM_END, 1, "Z_STREAM_END"),
        (ReturnCode::Z_NEED_DICT, 2, "Z_NEED_DICT"),
        (ReturnCode::Z_ERRNO, -1, "Z_ERRNO"),
        (ReturnCode::Z_STREAM_ERROR, -2, "Z_STREAM_ERROR"),
        (ReturnCode::Z_DATA_ERROR, -3, "Z_DATA_ERROR"),
        (ReturnCode::Z_MEM_ERROR, -4, "Z_MEM_ERROR"),
        (ReturnCode::Z_BUF_ERROR, -5, "Z_BUF_ERROR"),
        (ReturnCode::Z_VERSION_ERROR, -6, "Z_VERSION_ERROR"),
    ]
}

#[test]
fn return_codes_carry_zlib_numbers() {
    for (status, number, _) in all_codes() {
        assert_eq!(status.code(), number);
    }
}

#[test]
fn return_codes_are_found_again_from_their_numbers() {
    for (status, number, _) in all_codes() {
        assert_eq!(ReturnCode::from_code(number), Some(status));
        assert_eq!(ReturnCode::from_code(status.code()), Some(status));
    }
}

#[test]
fn unknown_numbers_are_no_return_code() {
    assert_eq!(ReturnCode::from_code(3), None);
    assert_eq!(ReturnCode::from_code(-7), None);
    assert_eq!(ReturnCode::from_code(i32::MAX), None);
    assert_eq!(ReturnCode::from_code(i32::MIN), None);
}

#[test]
fn return_codes_have_their_zlib_names() {
    for (status, _, name) in all_codes() {
        assert_eq!(status.name(), name);
    }
}

#[test]
fn compression_levels_carry_zlib_numbers() {
    assert_eq!(CompressionLevel::Z_NO_COMPRESSION.level(), 0);
    assert_eq!(CompressionLevel::Z_BEST_SPEED.level(), 1);
    assert_eq!(CompressionLevel::Z_BALANCED_COMPRESSION.level(), 5);
    assert_eq!(CompressionLevel::Z_BEST_COMPRESSION.level(), 9);
    assert_eq!(CompressionLevel::Z_DEFAULT_COMPRESSION.level(), -1);
}

#[test]
fn finishing_flush_is_four() {
    assert_eq!(FlushCode::Z_FINISH.code(), 4);
}

#[test]
fn format_constants() {
    assert_eq!(gzip::codes::GZIP_WBITS, 15 + 16);
    assert_eq!(gzip::codes::GZIP_HEADER_BOUND, 16);
    assert_eq!(gzip::uncompress::DEFAULT_INITIAL_SIZE, 128 * 1024);
    assert_eq!(gzip::uncompress::DEFAULT_MULTIPLIER, 8);
}
