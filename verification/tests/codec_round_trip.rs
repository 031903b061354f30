use reworkit::codec::{compress, decompress, CodecError};
use std::io::Write;

#[test]
fn round_trip_plain_bytes() {
    let data: Vec<u8> = b"hello build farm".to_vec();
    let packed = compress(&data).unwrap();
    let unpacked = decompress(&packed).unwrap();
    assert_eq!(unpacked, data);
}

#[test]
fn round_trip_empty() {
    let data: Vec<u8> = Vec::new();
    let packed = compress(&data).unwrap();
    let unpacked = decompress(&packed).unwrap();
    assert_eq!(unpacked, data);
}

#[test]
fn round_trip_binary_with_zeroes() {
    let mut data: Vec<u8> = Vec::new();
    for i in 0..4096u32 {
        data.push((i % 251) as u8);
        data.push(0);
    }
    let packed = compress(&data).unwrap();
    let unpacked = decompress(&packed).unwrap();
    assert_eq!(unpacked, data);
}

#[test]
fn compress_really_compresses() {
    // A stream handed back unchanged would not be a gzip stream at all:
    // the decoder of the real gzip format must accept the output and the
    // raw input must not look like one.
    let data: Vec<u8> = vec![7u8; 1024];
    let packed = compress(&data).unwrap();
    assert_ne!(packed, data);
    // gzip magic bytes open every valid stream.
    assert_eq!(&packed[0..2], &[0x1f, 0x8b]);
    assert!(decompress(&data).is_err());
}

#[test]
fn decompress_accepts_foreign_gzip() {
    // A stream produced by the gzip implementation directly, not by this
    // library's compress, must decode to the original payload.
    let mut enc = flate2::write::GzEncoder::new(Vec::new(), flate2::Compression::best());
    enc.write_all(b"foreign stream").unwrap();
    let packed = enc.finish().unwrap();
    let unpacked = decompress(&packed).unwrap();
    assert_eq!(unpacked, b"foreign stream".to_vec());
}

#[test]
fn decompress_rejects_truncated_stream() {
    let data: Vec<u8> = b"a log that will be cut short".to_vec();
    let mut packed = compress(&data).unwrap();
    packed.truncate(packed.len() - 5);
    let r = decompress(&packed);
    assert!(matches!(r, Err(CodecError::InvalidStream)));
}

#[test]
fn decompress_rejects_garbage() {
    let garbage: Vec<u8> = vec![1, 2, 3, 4, 5];
    assert!(matches!(decompress(&garbage), Err(CodecError::InvalidStream)));
}

#[test]
fn codec_error_messages() {
    assert_eq!(CodecError::CompressFailed.message(), "failed to compress log");
    assert_eq!(
        CodecError::InvalidStream.message(),
        "log payload is not a valid gzip stream"
    );
}
