use lib::portio::{Error, Io, SeekFrom};

fn map() -> lib::portio::IoMap {
    Io.open(b"map").expect("map opens")
}

#[test]
fn only_map_opens() {
    assert!(Io.open(b"map").is_ok());
    assert_eq!(Io.open(b"maps").err(), Some(Error::InvalidData));
    assert_eq!(Io.open(b"").err(), Some(Error::InvalidData));
    assert_eq!(Io.open(b"MAP").err(), Some(Error::InvalidData));
}

#[test]
fn fresh_map_starts_on_port_zero() {
    let m = map();
    assert_eq!(m.peek(1), Ok(0));
}

#[test]
fn seek_from_start_truncates() {
    let mut m = map();
    assert_eq!(m.seek(SeekFrom::Start(0x3f8)), 0x3f8);
    assert_eq!(m.peek(1), Ok(0x3f8));
    assert_eq!(m.seek(SeekFrom::Start(0x1_0060)), 0x60);
}

#[test]
fn seek_from_current_wraps() {
    let mut m = map();
    assert_eq!(m.seek(SeekFrom::Current(-1)), 0xffff);
    assert_eq!(m.seek(SeekFrom::Current(2)), 1);
    assert_eq!(m.seek(SeekFrom::Current(0)), 1);
    assert_eq!(m.seek(SeekFrom::Current(0x10000)), 1);
}

#[test]
fn seek_twice_is_seek_by_sum() {
    let mut a = map();
    let mut b = map();
    a.seek(SeekFrom::Start(0x70));
    b.seek(SeekFrom::Start(0x70));
    a.seek(SeekFrom::Current(-300));
    let pa = a.seek(SeekFrom::Current(1000));
    let pb = b.seek(SeekFrom::Current(700));
    assert_eq!(pa, pb);
}

#[test]
fn seek_from_end() {
    let mut m = map();
    assert_eq!(m.seek(SeekFrom::End(0)), 0xffff);
    assert_eq!(m.seek(SeekFrom::End(0x61)), 0x60);
    assert_eq!(m.seek(SeekFrom::End(-1)), 0xfffe);
}

#[test]
fn read_moves_peek_stays() {
    let mut m = map();
    m.seek(SeekFrom::Start(0x60));
    assert_eq!(m.peek(1), Ok(0x60));
    assert_eq!(m.peek(1), Ok(0x60));
    assert_eq!(m.read(1), Ok(0x60));
    assert_eq!(m.read(1), Ok(0x61));
    assert_eq!(m.peek(1), Ok(0x62));
}

#[test]
fn read_wraps_at_last_port() {
    let mut m = map();
    m.seek(SeekFrom::Start(0xffff));
    assert_eq!(m.read(1), Ok(0xffff));
    assert_eq!(m.peek(1), Ok(0));
}

#[test]
fn unsupported_lengths_are_invalid() {
    let mut m = map();
    m.seek(SeekFrom::Start(5));
    assert_eq!(m.read(0), Err(Error::InvalidData));
    assert_eq!(m.read(3), Err(Error::InvalidData));
    assert_eq!(m.peek(8), Err(Error::InvalidData));
    assert_eq!(m.write(&[]), Err(Error::InvalidData));
    assert_eq!(m.write(&[1, 2, 3]), Err(Error::InvalidData));
    assert_eq!(m.peek(1), Ok(5));
}

#[test]
fn write_targets_cursor_and_moves() {
    let mut m = map();
    m.seek(SeekFrom::Start(0x80));
    assert_eq!(m.write(&[0xaa]), Ok((0x80, 0xaa)));
    assert_eq!(m.write(&[0x55]), Ok((0x81, 0x55)));
    assert_eq!(m.peek(1), Ok(0x82));
}
