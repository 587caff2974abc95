use honeybeepf::wire::{
    put_i32, put_u16, put_u32, put_u64, read_bytes16, read_bytes64, read_bytes8, read_i32,
    read_u16, read_u32, read_u64,
};

#[test]
fn words_are_little_endian() {
    let bytes = [0x01, 0x02, 0x03, 0x04, 0x05, 0x06, 0x07, 0x08, 0x09];
    assert_eq!(read_u16(&bytes, 0), Some(0x0201));
    assert_eq!(read_u16(&bytes, 7), Some(0x0908));
    assert_eq!(read_u32(&bytes, 1), Some(0x0504_0302));
    assert_eq!(read_u64(&bytes, 1), Some(0x0908_0706_0504_0302));
    assert_eq!(read_u64(&bytes, 0), Some(u64::from_le_bytes([1, 2, 3, 4, 5, 6, 7, 8])));
}

#[test]
fn reads_past_the_end_fail() {
    let bytes = [0u8; 9];
    assert_eq!(read_u16(&bytes, 8), None);
    assert_eq!(read_u32(&bytes, 6), None);
    assert_eq!(read_u64(&bytes, 2), None);
    assert_eq!(read_u16(&bytes, usize::MAX), None);
    assert_eq!(read_u32(&bytes, usize::MAX), None);
    assert_eq!(read_u64(&bytes, usize::MAX), None);
    assert_eq!(read_i32(&bytes, 6), None);
    assert_eq!(read_u16(&[], 0), None);
    assert_eq!(read_bytes8(&bytes, 2), None);
    assert_eq!(read_bytes16(&bytes, 0), None);
    assert_eq!(read_bytes64(&bytes, 0), None);
}

#[test]
fn words_read_back() {
    let mut buf = vec![0xaa];
    put_u16(&mut buf, 0xbeef);
    put_u32(&mut buf, 0xdead_beef);
    put_u64(&mut buf, 0x0123_4567_89ab_cdef);
    put_i32(&mut buf, -2);
    assert_eq!(buf.len(), 1 + 2 + 4 + 8 + 4);
    assert_eq!(buf[0], 0xaa);
    assert_eq!(&buf[1..3], &0xbeef_u16.to_le_bytes());
    assert_eq!(read_u16(&buf, 1), Some(0xbeef));
    assert_eq!(read_u32(&buf, 3), Some(0xdead_beef));
    assert_eq!(read_u64(&buf, 7), Some(0x0123_4567_89ab_cdef));
    assert_eq!(read_i32(&buf, 15), Some(-2));
    for x in [0u64, 1, 255, 256, u32::MAX as u64, u64::MAX] {
        let mut b = Vec::new();
        put_u64(&mut b, x);
        assert_eq!(b, x.to_le_bytes());
        assert_eq!(read_u64(&b, 0), Some(x));
    }
    for x in [i32::MIN, -1, 0, 1, i32::MAX] {
        let mut b = Vec::new();
        put_i32(&mut b, x);
        assert_eq!(b, x.to_le_bytes());
        assert_eq!(read_i32(&b, 0), Some(x));
    }
}

#[test]
fn byte_runs_are_copied() {
    let bytes: Vec<u8> = (0..100).collect();
    assert_eq!(read_bytes8(&bytes, 3), Some([3, 4, 5, 6, 7, 8, 9, 10]));
    let sixteen = read_bytes16(&bytes, 84).unwrap();
    assert_eq!(&sixteen[..], &bytes[84..100]);
    assert_eq!(read_bytes16(&bytes, 85), None);
    let run = read_bytes64(&bytes, 36).unwrap();
    assert_eq!(&run[..], &bytes[36..100]);
    assert_eq!(read_bytes64(&bytes, 37), None);
}
