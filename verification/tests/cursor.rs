use class_parser::{Data, ErrorKind};

#[test]
fn data_u1() {
    let bytes = [0xff, 0x00];
    let mut data = Data::new(&bytes);
    assert_eq!(data.u1().unwrap(), 0xff);
    assert_eq!(data.u1().unwrap(), 0x00);
    assert_eq!(data.last_u1().unwrap(), 0x00);
}

#[test]
fn data_u2() {
    let bytes = [0xff, 0x33, 0x11, 0x00];
    let mut data = Data::new(&bytes);
    assert_eq!(data.u2().unwrap(), 0xff33);
    assert_eq!(data.u2().unwrap(), 0x1100);
    assert_eq!(data.last_u2().unwrap(), 0x1100);
}

#[test]
fn data_u4() {
    let bytes = [0xff, 0x33, 0x11, 0x00];
    let mut data = Data::new(&bytes);
    assert_eq!(data.u4().unwrap(), 0xff331100);
    assert_eq!(data.last_u4().unwrap(), 0xff331100);
}

#[test]
fn reads_fail_when_too_few_bytes_are_left() {
    let bytes = [0x01, 0x02, 0x03];
    let mut data = Data::new(&bytes);
    assert_eq!(data.u4().unwrap_err().kind, ErrorKind::TruncatedInput);
    assert_eq!(data.remaining(), 3);
    assert_eq!(data.u2().unwrap(), 0x0102);
    assert_eq!(data.u2().unwrap_err().kind, ErrorKind::TruncatedInput);
    assert_eq!(data.u1().unwrap(), 0x03);
    assert_eq!(data.u1().unwrap_err().kind, ErrorKind::TruncatedInput);
    assert_eq!(data.remaining(), 0);
}

#[test]
fn looking_back_fails_before_enough_was_read() {
    let bytes = [0x0a, 0x0b, 0x0c, 0x0d];
    let mut data = Data::new(&bytes);
    assert_eq!(data.last_u1().unwrap_err().kind, ErrorKind::TruncatedInput);
    data.u1().unwrap();
    assert_eq!(data.last_u1().unwrap(), 0x0a);
    assert_eq!(data.last_u2().unwrap_err().kind, ErrorKind::TruncatedInput);
    data.u2().unwrap();
    assert_eq!(data.last_u2().unwrap(), 0x0b0c);
    assert_eq!(data.last_u4().unwrap_err().kind, ErrorKind::TruncatedInput);
    data.u1().unwrap();
    assert_eq!(data.last_u4().unwrap(), 0x0a0b0c0d);
}

#[test]
fn sub_frames_a_window_and_moves_behind_it() {
    let bytes = [1, 2, 3, 4, 5];
    let mut data = Data::new(&bytes);
    data.u1().unwrap();
    let mut inner = data.sub(3).unwrap();
    assert_eq!(inner.u2().unwrap(), 0x0203);
    assert_eq!(inner.u1().unwrap(), 4);
    assert_eq!(inner.u1().unwrap_err().kind, ErrorKind::TruncatedInput);
    assert_eq!(data.u1().unwrap(), 5);
    let mut data = Data::new(&bytes);
    assert_eq!(data.sub(6).unwrap_err().kind, ErrorKind::TruncatedInput);
    assert_eq!(data.take(5).unwrap(), &bytes[..]);
}
