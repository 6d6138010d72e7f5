use remoc::varint::{
    max_of_last_byte, varint_max, varint_u32, Reader, VarintDecoder, VarintError, VarintRead,
    VarintWrite, MAX_LENGTH,
};

#[test]
fn varint_known_encodings() {
    let mut buf = [0; MAX_LENGTH];
    assert_eq!(varint_u32(0, &mut buf), [0x00]);
    assert_eq!(varint_u32(1, &mut buf), [0x01]);
    assert_eq!(varint_u32(127, &mut buf), [0x7f]);
    assert_eq!(varint_u32(128, &mut buf), [0x80, 0x01]);
    assert_eq!(varint_u32(300, &mut buf), [0xac, 0x02]);
    assert_eq!(varint_u32(16_383, &mut buf), [0xff, 0x7f]);
    assert_eq!(varint_u32(16_384, &mut buf), [0x80, 0x80, 0x01]);
    assert_eq!(varint_u32(u32::MAX, &mut buf), [0xff, 0xff, 0xff, 0xff, 0x0f]);
}

#[test]
fn varint_sizes() {
    assert_eq!(varint_max::<u8>(), 2);
    assert_eq!(varint_max::<u16>(), 3);
    assert_eq!(varint_max::<u32>(), 5);
    assert_eq!(varint_max::<u64>(), 10);
    assert_eq!(max_of_last_byte::<u8>(), 1);
    assert_eq!(max_of_last_byte::<u16>(), 3);
    assert_eq!(max_of_last_byte::<u32>(), 15);
    assert_eq!(max_of_last_byte::<u64>(), 1);
}

#[test]
fn varint_round_trips() {
    for n in [0u32, 1, 127, 128, 255, 256, 16_383, 16_384, 2_097_151, 2_097_152, 268_435_455,
        268_435_456, u32::MAX - 1, u32::MAX]
    {
        let mut out: Vec<u8> = Vec::new();
        let used = out.write_v32(n, true);
        assert_eq!(used, out.len());
        out.push(0xaa);
        let mut reader = Reader { data: &out, pos: 0 };
        assert_eq!(reader.read_v32(true).ok(), Some(n));
        assert_eq!(reader.pos, used);
    }
}

#[test]
fn fixed_encoding_is_little_endian() {
    let mut out: Vec<u8> = vec![0x99];
    assert_eq!(out.write_v32(0x1234_5678, false), 4);
    assert_eq!(out, vec![0x99, 0x78, 0x56, 0x34, 0x12]);
    let mut reader = Reader { data: &out, pos: 1 };
    assert_eq!(reader.read_v32(false).ok(), Some(0x1234_5678));
    assert!(matches!(reader.read_v32(false), Err(VarintError::UnexpectedEof)));
}

#[test]
fn truncated_varint_is_an_early_end() {
    let data = [0x80u8, 0x80];
    let mut reader = Reader { data: &data, pos: 0 };
    assert!(matches!(reader.read_v32(true), Err(VarintError::UnexpectedEof)));
}

#[test]
fn overlong_varints_are_invalid() {
    let data = [0xffu8, 0xff, 0xff, 0xff, 0x10];
    let mut reader = Reader { data: &data, pos: 0 };
    assert!(matches!(reader.read_v32(true), Err(VarintError::InvalidVarint)));
    let data = [0xffu8, 0xff, 0xff, 0xff, 0xff, 0x01];
    let mut reader = Reader { data: &data, pos: 0 };
    assert!(matches!(reader.read_v32(true), Err(VarintError::InvalidVarint)));
}

#[test]
fn decoder_can_be_reused() {
    let mut decoder = VarintDecoder::new();
    assert!(matches!(decoder.decode(0xac), Ok(None)));
    assert!(matches!(decoder.decode(0x02), Ok(Some(300))));
    assert!(matches!(decoder.decode(0x05), Ok(Some(5))));
    let mut decoder = VarintDecoder::default();
    assert!(matches!(decoder.decode(0x00), Ok(Some(0))));
}

#[test]
fn rest_of_the_buffer_is_kept() {
    let mut buf = [9; MAX_LENGTH];
    assert_eq!(varint_u32(300, &mut buf), [0xac, 0x02]);
    assert_eq!(buf, [0xac, 0x02, 9, 9, 9]);
}
