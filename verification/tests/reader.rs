use elf_parser::reader::{read_u16, read_u32, read_u64, read_u8, ByteSource};

#[test]
fn new_source_starts_at_zero() {
    let data = [1u8, 2, 3];
    let io = ByteSource::new(&data);
    assert_eq!(io.position(), 0);
    assert_eq!(io.remaining(), 3);
}

#[test]
fn read_u8_takes_one_byte() {
    let data = [0xabu8, 0xcd];
    let mut io = ByteSource::new(&data);
    assert_eq!(read_u8(&mut io), Some(0xab));
    assert_eq!(io.position(), 1);
    assert_eq!(read_u8(&mut io), Some(0xcd));
    assert_eq!(io.position(), 2);
    assert_eq!(read_u8(&mut io), None);
    assert_eq!(io.position(), 2);
}

#[test]
fn read_u16_is_little_endian() {
    let data = [0x34u8, 0x12];
    let mut io = ByteSource::new(&data);
    assert_eq!(read_u16(&mut io), Some(0x1234));
    assert_eq!(io.position(), 2);
}

#[test]
fn read_u32_is_little_endian() {
    let data = [0x78u8, 0x56, 0x34, 0x12];
    let mut io = ByteSource::new(&data);
    assert_eq!(read_u32(&mut io), Some(0x1234_5678));
    assert_eq!(io.position(), 4);
}

#[test]
fn read_u64_is_little_endian() {
    let data = [0xefu8, 0xcd, 0xab, 0x89, 0x67, 0x45, 0x23, 0x01];
    let mut io = ByteSource::new(&data);
    assert_eq!(read_u64(&mut io), Some(0x0123_4567_89ab_cdef));
    assert_eq!(io.position(), 8);
}

#[test]
fn reads_of_all_ones_give_the_largest_values() {
    let data = [0xffu8; 8];
    let mut io = ByteSource::new(&data);
    assert_eq!(read_u64(&mut io), Some(u64::MAX));
    io.seek(0);
    assert_eq!(read_u32(&mut io), Some(u32::MAX));
    io.seek(0);
    assert_eq!(read_u16(&mut io), Some(u16::MAX));
    io.seek(0);
    assert_eq!(read_u8(&mut io), Some(u8::MAX));
}

#[test]
fn reads_agree_with_std_on_many_values() {
    let mut x: u64 = 0x9e37_79b9_7f4a_7c15;
    for _ in 0..200 {
        x ^= x << 13;
        x ^= x >> 7;
        x ^= x << 17;
        let data = x.to_le_bytes();
        let mut io = ByteSource::new(&data);
        assert_eq!(read_u64(&mut io), Some(x));
        io.seek(0);
        assert_eq!(read_u32(&mut io), Some(x as u32));
        assert_eq!(read_u32(&mut io), Some((x >> 32) as u32));
        io.seek(0);
        assert_eq!(read_u16(&mut io), Some(x as u16));
        io.seek(7);
        assert_eq!(read_u8(&mut io), Some((x >> 56) as u8));
    }
}

#[test]
fn short_read_fails_and_does_not_move() {
    let data = [1u8, 2, 3, 4, 5, 6, 7];
    let mut io = ByteSource::new(&data);
    assert_eq!(read_u64(&mut io), None);
    assert_eq!(io.position(), 0);
    io.seek(4);
    assert_eq!(read_u32(&mut io), None);
    assert_eq!(io.position(), 4);
    io.seek(6);
    assert_eq!(read_u16(&mut io), None);
    assert_eq!(io.position(), 6);
    assert_eq!(read_u8(&mut io), Some(7));
    assert_eq!(read_u8(&mut io), None);
}

#[test]
fn reads_are_sequential() {
    let data = [0x01u8, 0x02, 0x03, 0x04, 0x05, 0x06, 0x07];
    let mut io = ByteSource::new(&data);
    assert_eq!(read_u8(&mut io), Some(0x01));
    assert_eq!(read_u16(&mut io), Some(0x0302));
    assert_eq!(read_u32(&mut io), Some(0x0706_0504));
    assert_eq!(io.remaining(), 0);
}

#[test]
fn seek_goes_anywhere() {
    let data = [9u8, 8, 7];
    let mut io = ByteSource::new(&data);
    io.seek(2);
    assert_eq!(io.position(), 2);
    assert_eq!(io.remaining(), 1);
    io.seek(3);
    assert_eq!(io.remaining(), 0);
    io.seek(u64::MAX);
    assert_eq!(io.position(), u64::MAX);
    assert_eq!(io.remaining(), 0);
    assert_eq!(read_u8(&mut io), None);
    assert_eq!(io.position(), u64::MAX);
    io.seek(0);
    assert_eq!(read_u8(&mut io), Some(9));
}

#[test]
fn read_bytes_hands_out_the_region() {
    let data = [10u8, 11, 12, 13, 14];
    let mut io = ByteSource::new(&data);
    io.seek(1);
    assert_eq!(io.read_bytes(3), Some(&data[1..4]));
    assert_eq!(io.position(), 4);
    assert_eq!(io.read_bytes(2), None);
    assert_eq!(io.position(), 4);
    assert_eq!(io.read_bytes(1), Some(&data[4..5]));
    assert_eq!(io.position(), 5);
}

#[test]
fn read_bytes_of_nothing_always_succeeds() {
    let data = [1u8, 2];
    let mut io = ByteSource::new(&data);
    let empty: &[u8] = &[];
    assert_eq!(io.read_bytes(0), Some(empty));
    assert_eq!(io.position(), 0);
    io.seek(2);
    assert_eq!(io.read_bytes(0), Some(empty));
    io.seek(1000);
    assert_eq!(io.read_bytes(0), Some(empty));
    assert_eq!(io.position(), 1000);
    assert_eq!(io.read_bytes(1), None);
}

#[test]
fn read_bytes_of_too_much_fails() {
    let data = [1u8, 2];
    let mut io = ByteSource::new(&data);
    assert_eq!(io.read_bytes(3), None);
    assert_eq!(io.read_bytes(u64::MAX), None);
    assert_eq!(io.position(), 0);
    assert_eq!(io.read_bytes(2), Some(&data[..]));
}

#[test]
fn empty_source_has_nothing() {
    let data: [u8; 0] = [];
    let mut io = ByteSource::new(&data);
    assert_eq!(io.remaining(), 0);
    assert_eq!(read_u8(&mut io), None);
    assert_eq!(read_u16(&mut io), None);
    assert_eq!(read_u32(&mut io), None);
    assert_eq!(read_u64(&mut io), None);
}
