use phase_space_harness::codec::{frame, frame_length, split_frame, MAX_ENVELOPE_LEN, PREFIX_LEN};

#[test]
fn frame_puts_a_big_endian_length_first() {
    assert_eq!(frame(&[]), Some(vec![0, 0, 0, 0]));
    assert_eq!(frame(&[7]), Some(vec![0, 0, 0, 1, 7]));
    assert_eq!(frame(b"abc"), Some(vec![0, 0, 0, 3, b'a', b'b', b'c']));
    let long = vec![9u8; 0x0001_0203];
    let framed = frame(&long).unwrap();
    assert_eq!(&framed[..4], &[0x00, 0x01, 0x02, 0x03]);
    assert_eq!(&framed[4..], &long[..]);
    assert_eq!(framed.len(), PREFIX_LEN + long.len());
}

#[test]
fn frame_agrees_with_the_standard_byte_order() {
    for len in [0usize, 1, 255, 256, 257, 65535, 65536, 70000] {
        let envelope = vec![0xABu8; len];
        let framed = frame(&envelope).unwrap();
        assert_eq!(&framed[..4], &(len as u32).to_be_bytes());
    }
}

#[test]
fn frame_length_reads_a_big_endian_length() {
    assert_eq!(frame_length(&[0, 0, 0, 0]), 0);
    assert_eq!(frame_length(&[0, 0, 0, 5]), 5);
    assert_eq!(frame_length(&[0, 0, 1, 0]), 256);
    assert_eq!(frame_length(&[1, 2, 3, 4]), 0x0102_0304);
    assert_eq!(frame_length(&[255, 255, 255, 255]), u32::MAX);
    assert_eq!(MAX_ENVELOPE_LEN as u64, u32::MAX as u64);
    for value in [0u32, 1, 0xFF, 0x1234, 0xDEAD_BEEF, u32::MAX] {
        assert_eq!(frame_length(&value.to_be_bytes()), value);
    }
}

#[test]
fn split_frame_undoes_frame() {
    for envelope in [&b""[..], &b"x"[..], &b"{\"type\":0}"[..]] {
        let framed = frame(envelope).unwrap();
        assert_eq!(split_frame(&framed), Some((envelope.to_vec(), framed.len())));
    }
}

#[test]
fn split_frame_leaves_what_follows() {
    let mut stream = frame(b"first").unwrap();
    stream.extend(frame(b"second!").unwrap());
    stream.extend([0, 0]);
    let (first, used) = split_frame(&stream).unwrap();
    assert_eq!(first, b"first");
    assert_eq!(used, 9);
    let (second, used_again) = split_frame(&stream[used..]).unwrap();
    assert_eq!(second, b"second!");
    assert_eq!(used_again, 11);
    assert_eq!(split_frame(&stream[used + used_again..]), None);
}

#[test]
fn split_frame_notices_a_short_read() {
    let framed = frame(b"payload").unwrap();
    for len in 0..framed.len() {
        assert_eq!(split_frame(&framed[..len]), None, "{len} bytes");
    }
    assert_eq!(split_frame(&[0, 0, 0]), None);
    assert_eq!(split_frame(&[255, 255, 255, 255, 1, 2, 3]), None);
    assert_eq!(split_frame(&[0, 0, 0, 0]), Some((vec![], 4)));
}
