use xz_decom::{classify_outcome, decompress, decompress_with_capacity};
use xz_decom::engine::{xz_dec, xz_mode, xz_ret, XZRawError};

/// A complete `.xz` stream holding the five ASCII bytes of "hello",
/// compressed with the default settings (LZMA2, CRC64 check).
fn hello_xz() -> Vec<u8> {
    vec![
        0xfd, 0x37, 0x7a, 0x58, 0x5a, 0x00, 0x00, 0x04, 0xe6, 0xd6, 0xb4, 0x46, 0x02, 0x00, 0x21,
        0x01, 0x16, 0x00, 0x00, 0x00, 0x74, 0x2f, 0xe5, 0xa3, 0x01, 0x00, 0x04, 0x68, 0x65, 0x6c,
        0x6c, 0x6f, 0x00, 0x00, 0x00, 0x00, 0xb1, 0x37, 0xb9, 0xdb, 0xe5, 0xda, 0x1e, 0x9b, 0x00,
        0x01, 0x1d, 0x05, 0xb8, 0x2d, 0x80, 0xaf, 0x1f, 0xb6, 0xf3, 0x7d, 0x01, 0x00, 0x00, 0x00,
        0x00, 0x04, 0x59, 0x5a,
    ]
}

#[test]
fn test_hello() {
    let data = hello_xz();

    let result = decompress(&data).unwrap();
    assert_eq!(result, "hello".as_bytes());
}

#[test]
fn test_error() {
    let data = "not a valid xz file".as_bytes();

    match decompress(data) {
        Err(err) => {
            let cause = err.cause().unwrap();
            println!("{}: {}", err.description(), cause.description());
        }
        Ok(..) => {
            panic!("decompress should have returned error!");
        }
    }
}

#[test]
fn test_partial() {
    let data = hello_xz();
    match decompress(&data[0..30]) {
        Err(err) => {
            assert!(err.cause().is_none());
            println!("{:?}", err);
        }
        Ok(..) => {
            panic!("decompress should have returned error!");
        }
    }
}

#[test]
fn test_full_hello_decompress() {
    let data = hello_xz();

    let mut state = xz_dec::init(xz_mode::XZ_DYNALLOC, 1 << 26).unwrap();

    let mut out_buf: Vec<u8> = vec![0; 32];
    let in_buf = data;
    let mut in_pos: usize = 0;
    let mut out_pos: usize = 0;

    let ret = state.run(&in_buf, &mut in_pos, &mut out_buf, &mut out_pos);
    println!("ret={:?}", ret);
    println!("out_pos: {}", out_pos);
    println!("out_size: {}", out_buf.len());
    let mut v = out_buf.clone();
    v.truncate(out_pos);
    println!("in_pos: {}", in_pos);

    assert_eq!(ret, xz_ret::XZ_STREAM_END);
    assert_eq!(out_pos, 5);
    assert_eq!(in_buf.len(), in_pos);
    assert_eq!(v, "hello".as_bytes());
}

#[test]
fn test_partial_hello_decompress() {
    let data = hello_xz();

    let mut state = xz_dec::init(xz_mode::XZ_DYNALLOC, 1 << 26).unwrap();

    // An output buffer smaller than "hello", so that two runs are needed.
    let mut out_buf: Vec<u8> = vec![0; 2];
    let in_buf = data;
    let mut in_pos: usize = 0;
    let mut out_pos: usize = 0;

    let ret = state.run(&in_buf, &mut in_pos, &mut out_buf, &mut out_pos);
    println!("ret={:?}", ret);
    println!("out_pos: {}", out_pos);
    println!("out_size: {}", out_buf.len());
    let mut v = out_buf.clone();
    v.truncate(out_pos);
    println!("in_pos: {}", in_pos);

    assert_eq!(ret, xz_ret::XZ_OK);
    assert_eq!(out_pos, 2);
    assert_eq!(v, "he".as_bytes());

    // Grow the output buffer to 5 bytes and finish the stream.
    out_buf.push(0);
    out_buf.push(0);
    out_buf.push(0);
    let ret = state.run(&in_buf, &mut in_pos, &mut out_buf, &mut out_pos);
    println!("ret={:?}", ret);
    assert_eq!(ret, xz_ret::XZ_STREAM_END);
    let mut v = out_buf.clone();
    v.truncate(out_pos);
    assert_eq!(v, "hello".as_bytes());
}

#[test]
fn chunking_invariance() {
    let data = hello_xz();
    let expected = "hello".as_bytes();

    assert_eq!(decompress_with_capacity(&data, 1).unwrap(), expected);
    assert_eq!(decompress_with_capacity(&data, 2).unwrap(), expected);
    assert_eq!(decompress_with_capacity(&data, 4096).unwrap(), expected);
    assert_eq!(decompress_with_capacity(&data, expected.len()).unwrap(), expected);
}

#[test]
fn empty_input_fails() {
    let e = decompress(&[]).unwrap_err();
    assert_eq!(e.description(), "Reached end of input buffer");
    assert!(e.cause().is_none());
}

#[test]
fn garbage_is_format_error() {
    let e = decompress("not a valid xz file".as_bytes()).unwrap_err();
    assert_eq!(e.description(), "Decompressing error");
    let raw = e.cause().unwrap();
    assert_eq!(raw.code, xz_ret::XZ_FORMAT_ERROR);
    assert_eq!(raw.description(), "File format was not recognized");
}

#[test]
fn every_strict_prefix_fails() {
    let data = hello_xz();
    for k in 0..data.len() {
        let r = decompress(&data[0..k]);
        assert!(r.is_err(), "prefix of length {} must not decompress", k);
    }
}

#[test]
fn corrupt_byte_is_engine_failure() {
    let mut data = hello_xz();
    data[30] ^= 0xff;
    let e = decompress(&data).unwrap_err();
    assert_eq!(e.description(), "Decompressing error");
    let raw = e.cause().unwrap();
    assert_eq!(raw.code, xz_ret::XZ_DATA_ERROR);
    assert_eq!(raw.description(), "Compressed data is corrupt");
}

#[test]
fn zero_capacity_cannot_progress() {
    let data = hello_xz();
    let e = decompress_with_capacity(&data, 0).unwrap_err();
    assert_eq!(e.description(), "Decompressing error");
    assert_eq!(e.cause().unwrap().code, xz_ret::XZ_BUF_ERROR);
}

#[test]
fn decompression_is_deterministic() {
    let data = hello_xz();
    let first = decompress(&data).unwrap();
    let second = decompress(&data).unwrap();
    assert_eq!(first, second);
}

#[test]
fn round_trip_through_encoder() {
    let mut original: Vec<u8> = Vec::new();
    for i in 0..3000usize {
        original.push((i % 251) as u8);
    }

    let mut encoder =
        xz2::stream::Stream::new_easy_encoder(6, xz2::stream::Check::Crc64).unwrap();
    let mut compressed: Vec<u8> = Vec::with_capacity(original.len() + 4096);
    loop {
        let fed = encoder.total_in() as usize;
        let status = encoder
            .process_vec(&original[fed..], &mut compressed, xz2::stream::Action::Finish)
            .unwrap();
        if status == xz2::stream::Status::StreamEnd {
            break;
        }
        compressed.reserve(4096);
    }

    let decoded = decompress(&compressed).unwrap();
    assert_eq!(decoded, original);
}

#[test]
fn raw_error_descriptions() {
    let cases = [
        (xz_ret::XZ_OK, "Everything is OK so far"),
        (xz_ret::XZ_STREAM_END, "Operation finished successfully"),
        (xz_ret::XZ_UNSUPPORTED_CHECK, "Integrity check type is not supported"),
        (xz_ret::XZ_MEM_ERROR, "Allocating memory failed"),
        (
            xz_ret::XZ_MEMLIMIT_ERROR,
            "A bigger LZMA2 dictionary is needed than allowed by dict_max",
        ),
        (xz_ret::XZ_FORMAT_ERROR, "File format was not recognized"),
        (
            xz_ret::XZ_OPTIONS_ERROR,
            "This implementation doesn't support the requested compression options",
        ),
        (xz_ret::XZ_DATA_ERROR, "Compressed data is corrupt"),
        (xz_ret::XZ_BUF_ERROR, "Cannot make any progress"),
    ];
    for (code, text) in cases {
        let raw = XZRawError::from(code);
        assert_eq!(raw.code, code);
        assert_eq!(raw.description(), text);
    }
}

#[test]
fn capacity_two_takes_multiple_continue_steps() {
    let data = hello_xz();

    let mut state = xz_dec::init(xz_mode::XZ_DYNALLOC, 1 << 26).unwrap();
    let mut buf: Vec<u8> = vec![0; 2];
    let mut in_pos: usize = 0;
    let mut decoded: Vec<u8> = Vec::new();
    let mut continue_steps: usize = 0;

    loop {
        let mut out_pos: usize = 0;
        let ret = state.run(&data, &mut in_pos, &mut buf, &mut out_pos);
        decoded.extend_from_slice(&buf[0..out_pos]);
        if ret == xz_ret::XZ_STREAM_END {
            break;
        }
        assert_eq!(ret, xz_ret::XZ_OK);
        assert!(in_pos < data.len(), "input exhausted before the stream end");
        continue_steps += 1;
    }

    assert!(continue_steps >= 2, "only {} continue steps were needed", continue_steps);
    assert_eq!(decoded, "hello".as_bytes());
}

#[test]
fn classify_outcome_shapes() {
    assert!(classify_outcome(xz_ret::XZ_STREAM_END, true).is_none());
    assert!(classify_outcome(xz_ret::XZ_STREAM_END, false).is_none());
    assert!(classify_outcome(xz_ret::XZ_OK, false).is_none());

    let e = classify_outcome(xz_ret::XZ_OK, true).unwrap();
    assert_eq!(e.description(), "Reached end of input buffer");
    assert!(e.cause().is_none());

    // An engine failure takes precedence over exhaustion and chains its code.
    for code in [
        xz_ret::XZ_UNSUPPORTED_CHECK,
        xz_ret::XZ_MEM_ERROR,
        xz_ret::XZ_MEMLIMIT_ERROR,
        xz_ret::XZ_FORMAT_ERROR,
        xz_ret::XZ_OPTIONS_ERROR,
        xz_ret::XZ_DATA_ERROR,
        xz_ret::XZ_BUF_ERROR,
    ] {
        for exhausted in [false, true] {
            let e = classify_outcome(code, exhausted).unwrap();
            assert_eq!(e.description(), "Decompressing error");
            assert_eq!(e.cause().unwrap().code, code);
        }
    }
}
