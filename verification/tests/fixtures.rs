use gzip::{
    compress, compress_level, must_compress, must_uncompress, uncompress, uncompress_config,
    CompressionLevel,
};

struct Fixture {
    data: &'static str,
    level: CompressionLevel,
    initial_size: usize,
    multiplier: usize,
}

fn fixtures() -> Vec<Fixture> {
    vec![
        Fixture {
            data: "b49546ca-a89b-4f6d-974a-a10d89495f4f",
            level: CompressionLevel::Z_DEFAULT_COMPRESSION,
            initial_size: 1024,
            multiplier: 2,
        },
        Fixture {
            data: "b49546ca-a89b-4f6d-974a-a10d89495f4f",
            level: CompressionLevel::Z_BEST_COMPRESSION,
            initial_size: 1,
            multiplier: 2,
        },
        Fixture {
            data: "b49546ca-a89b-4f6d-974a-a10d89495f4f",
            level: CompressionLevel::Z_BEST_SPEED,
            initial_size: 1,
            multiplier: 1024,
        },
        Fixture {
            data: "",
            level: CompressionLevel::Z_BALANCED_COMPRESSION,
            initial_size: 1024,
            multiplier: 2,
        },
        Fixture {
            data: "",
            level: CompressionLevel::Z_DEFAULT_COMPRESSION,
            initial_size: 1,
            multiplier: 2,
        },
        Fixture {
            data: "",
            level: CompressionLevel::Z_NO_COMPRESSION,
            initial_size: 1,
            multiplier: 1024,
        },
    ]
}

#[test]
fn successes() {
    for fixture in fixtures().iter() {
        let expected = fixture.data.as_bytes().to_owned();

        {
            let ret1 = compress_level(&expected, fixture.level);
            assert!(ret1.is_ok());
            let compressed = ret1.unwrap();
            let ret2 = uncompress_config(&compressed, fixture.initial_size, fixture.multiplier);
            assert!(ret2.is_ok());
            let actual = ret2.unwrap();
            assert!(expected == actual);
        }

        {
            let ret1 = compress(&expected);
            assert!(ret1.is_ok());
            let compressed = ret1.unwrap();
            let ret2 = uncompress(&compressed);
            assert!(ret2.is_ok());
            let actual = ret2.unwrap();
            assert!(expected == actual);
        }

        {
            let compressed = must_compress(&expected);
            let actual = must_uncompress(&compressed);
            assert!(expected == actual);
        }
    }
}

#[test]
fn failures() {
    for fixture in fixtures().iter() {
        let data = fixture.data.as_bytes().to_owned();

        let ret1 = uncompress_config(&data, fixture.initial_size, fixture.multiplier);
        assert!(ret1.is_err());

        let ret2 = uncompress(&data);
        assert!(ret2.is_err());
    }
}

#[test]
fn gzip_fixture() {
    let compressed: &[u8] = &[
        0x1f, 0x8b, 0x08, 0x00, 0x00, 0x00, 0x00, 0x00, 0x00, 0x00, 0x4b, 0x4c, 0x4a, 0xe6, 0x02,
        0x00, 0x4e, 0x81, 0x88, 0x47, 0x04, 0x00, 0x00, 0x00,
    ];
    let uncompressed = "abc\n".as_bytes();
    {
        let ret = uncompress(compressed);
        assert!(ret.is_ok());
        let actual = ret.unwrap();
        assert!(uncompressed == actual);
    }
    {
        let ret = compress(uncompressed);
        assert!(ret.is_ok());
        let actual = ret.unwrap();
        assert!(compressed == actual);
    }
    {
        let actual = must_uncompress(compressed);
        assert!(uncompressed == actual);
    }
    {
        let actual = must_compress(uncompressed);
        assert!(compressed == actual);
    }
}
