use nbt_compress::codec::{
    compress_libdeflater, compress_zopfli, decompress, DecodeError, GZIP_OVERHEAD, MAX_LEVEL,
};

const HELLO: [u8; 31] = [
    31, 139, 8, 0, 0, 0, 0, 0, 2, 3, 203, 72, 205, 201, 201, 87, 40, 207, 47, 202, 73, 1, 0, 133,
    17, 74, 13, 11, 0, 0, 0,
];

const EMPTY: [u8; 20] = [31, 139, 8, 0, 0, 0, 0, 0, 2, 3, 3, 0, 0, 0, 0, 0, 0, 0, 0, 0];

const ABCDEFGH_TIMES_40: [u8; 32] = [
    31, 139, 8, 0, 0, 0, 0, 0, 2, 3, 75, 76, 74, 78, 73, 77, 75, 207, 72, 28, 165, 201, 162, 1, 79,
    38, 194, 151, 64, 1, 0, 0,
];

const ZEROS_100000: [u8; 132] = [
    31, 139, 8, 0, 0, 0, 0, 0, 2, 3, 237, 193, 49, 1, 0, 0, 0, 194, 160, 245, 79, 109, 13, 15, 160,
    0, 0, 0, 0, 0, 0, 0, 0, 0, 0, 0, 0, 0, 0, 0, 0, 0, 0, 0, 0, 0, 0, 0, 0, 0, 0, 0, 0, 0, 0, 0, 0,
    0, 0, 0, 0, 0, 0, 0, 0, 0, 0, 0, 0, 0, 0, 0, 0, 0, 0, 0, 0, 0, 0, 0, 0, 0, 0, 0, 0, 0, 0, 0, 0,
    0, 0, 0, 0, 0, 0, 0, 0, 0, 0, 0, 0, 0, 0, 0, 0, 0, 0, 0, 0, 0, 0, 0, 0, 0, 0, 0, 0, 0, 0, 0, 0,
    128, 87, 3, 125, 149, 17, 212, 160, 134, 1, 0,
];

fn sample(len: usize) -> Vec<u8> {
    let mut state: u32 = 12345;
    let mut out = Vec::new();
    for i in 0..len {
        state = state.wrapping_mul(1_103_515_245).wrapping_add(12345);
        if i % 3 == 0 {
            out.push((state >> 16) as u8);
        } else {
            out.push(b'a' + (i % 7) as u8);
        }
    }
    out
}

#[test]
fn known_stream_is_decoded() {
    assert_eq!(decompress(&HELLO), Ok(b"hello world".to_vec()));
}

#[test]
fn stream_of_nothing_is_decoded() {
    assert_eq!(decompress(&EMPTY), Ok(Vec::new()));
}

#[test]
fn payload_ten_times_the_stream_is_decoded() {
    let expected: Vec<u8> = b"abcdefgh".iter().copied().cycle().take(320).collect();
    assert_eq!(decompress(&ABCDEFGH_TIMES_40), Ok(expected));
}

#[test]
fn payload_far_larger_than_the_stream_is_decoded() {
    assert_eq!(decompress(&ZEROS_100000), Ok(vec![0u8; 100_000]));
}

#[test]
fn bytes_that_are_no_stream_are_refused() {
    assert_eq!(decompress(&[]), Err(DecodeError::BadData));
    assert_eq!(decompress(b"plainly not gzip, but long enough"), Err(DecodeError::BadData));
    assert_eq!(decompress(&[31, 139]), Err(DecodeError::BadData));
    assert_eq!(decompress(&[0u8; 64]), Err(DecodeError::BadData));
}

#[test]
fn truncated_stream_is_refused() {
    assert_eq!(decompress(&HELLO[..HELLO.len() - 1]), Err(DecodeError::BadData));
    assert_eq!(decompress(&HELLO[..12]), Err(DecodeError::BadData));
    assert_eq!(decompress(&ZEROS_100000[..100]), Err(DecodeError::BadData));
}

#[test]
fn corrupt_stream_is_refused() {
    let mut wrong_checksum = HELLO;
    wrong_checksum[24] ^= 1;
    assert_eq!(decompress(&wrong_checksum), Err(DecodeError::BadData));

    let mut wrong_length = HELLO;
    wrong_length[27] = 12;
    assert_eq!(decompress(&wrong_length), Err(DecodeError::BadData));

    let mut wrong_magic = HELLO;
    wrong_magic[0] = 30;
    assert_eq!(decompress(&wrong_magic), Err(DecodeError::BadData));

    let mut wrong_literal = HELLO;
    wrong_literal[12] ^= 0x10;
    assert_eq!(decompress(&wrong_literal), Err(DecodeError::BadData));

    let mut wrong_code_lengths = ZEROS_100000;
    wrong_code_lengths[12] ^= 1;
    assert_eq!(decompress(&wrong_code_lengths), Err(DecodeError::BadData));
}

#[test]
fn bytes_after_the_stream_are_ignored() {
    let mut longer = HELLO.to_vec();
    longer.extend_from_slice(b"trailing");
    assert_eq!(decompress(&longer), Ok(b"hello world".to_vec()));
}

#[test]
fn libdeflater_stream_decodes_to_its_payload() {
    for len in [0usize, 1, 17, 300, 5000] {
        let payload = sample(len);
        for level in [0u8, 1, 6, 9, 12] {
            let stream = compress_libdeflater(&payload, level).unwrap();
            assert_ne!(stream, payload);
            assert_eq!(&stream[..3], &[31u8, 139, 8]);
            assert_eq!(decompress(&stream), Ok(payload.clone()));
        }
    }
}

#[test]
fn libdeflater_takes_every_level_up_to_twelve() {
    assert_eq!(MAX_LEVEL, 12);
    for level in 0..=MAX_LEVEL {
        let stream = compress_libdeflater(b"abcabcabcabc", level).unwrap();
        assert_eq!(decompress(&stream), Ok(b"abcabcabcabc".to_vec()));
    }
}

#[test]
fn libdeflater_stream_is_longer_than_header_and_trailer() {
    assert_eq!(GZIP_OVERHEAD, 18);
    for level in [0u8, 1, 9, 12] {
        for len in [0usize, 1, 2, 100] {
            let stream = compress_libdeflater(&sample(len), level).unwrap();
            assert!(stream.len() > 18);
            assert!(stream.len() <= len + 64);
        }
    }
}

#[test]
fn libdeflater_gives_the_same_stream_again() {
    for len in [0usize, 40, 3000] {
        let payload = sample(len);
        for level in [0u8, 6, 9, 12] {
            let first = compress_libdeflater(&payload, level).unwrap();
            let second = compress_libdeflater(&payload, level).unwrap();
            assert_eq!(first, second);
        }
    }
}

#[test]
fn libdeflater_shrinks_what_repeats() {
    let payload = vec![b'x'; 4000];
    let stream = compress_libdeflater(&payload, 9).unwrap();
    assert!(stream.len() < 100);
    let stored = compress_libdeflater(&payload, 0).unwrap();
    assert!(stored.len() > payload.len());
    assert_eq!(decompress(&stored), Ok(payload));
}

#[test]
fn zopfli_stream_decodes_to_its_payload() {
    for len in [0usize, 1, 17, 300] {
        let payload = sample(len);
        let stream = compress_zopfli(&payload, 3).unwrap();
        assert_ne!(stream, payload);
        assert_eq!(&stream[..3], &[31u8, 139, 8]);
        assert_eq!(decompress(&stream), Ok(payload));
    }
}

#[test]
fn zopfli_always_gives_a_stream() {
    for iterations in [1u64, 2, 15] {
        for len in [0usize, 3, 64] {
            assert!(compress_zopfli(&sample(len), iterations).is_ok());
        }
    }
}

#[test]
fn zopfli_shrinks_what_repeats() {
    let payload = vec![b'x'; 2000];
    let stream = compress_zopfli(&payload, 1).unwrap();
    assert!(stream.len() < 100);
    assert_eq!(decompress(&stream), Ok(payload));
}
