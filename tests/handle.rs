use rubble::bytes::{ByteReader, ByteWriter, Error, FromBytes, ToBytes};
use rubble::error::{AttError, ErrorCode};
use rubble::handle::{Handle, HandleRange, RawHandleRange};

fn decode_handle(bytes: &[u8]) -> Result<Handle, Error> {
    let mut reader = ByteReader::new(bytes);
    Handle::from_bytes(&mut reader)
}

fn encode<T: ToBytes>(value: &T, capacity: usize) -> Result<Vec<u8>, Error> {
    let mut writer = ByteWriter::new(capacity);
    value.to_bytes(&mut writer)?;
    Ok(writer.into_bytes())
}

fn raw(start: u16, end: u16) -> RawHandleRange {
    RawHandleRange::new(Handle::from_raw(start), Handle::from_raw(end))
}

#[test]
fn handle_round_trip_every_value() {
    for v in 0..=u16::MAX {
        let bytes = v.to_le_bytes();
        let handle = decode_handle(&bytes).unwrap();
        assert_eq!(handle, Handle::from_raw(v));
        assert_eq!(encode(&handle, 2).unwrap(), bytes.to_vec());
    }
}

#[test]
fn handle_decodes_little_endian() {
    assert_eq!(decode_handle(&[0x34, 0x12]).unwrap().as_u16(), 0x1234);
    assert_eq!(encode(&Handle::from_raw(0xABCD), 2).unwrap(), vec![0xCD, 0xAB]);
}

#[test]
fn null_handle_wire_form() {
    assert_eq!(Handle::null().as_u16(), 0x0000);
    assert_eq!(encode(&Handle::null(), 2).unwrap(), vec![0x00, 0x00]);
    assert_eq!(decode_handle(&[0x00, 0x00]).unwrap(), Handle::null());
}

#[test]
fn check_accepts_ordinary_range() {
    let range = raw(0x0001, 0x0005).check().unwrap();
    assert_eq!(range.start(), Handle::from_raw(0x0001));
    assert_eq!(range.end(), Handle::from_raw(0x0005));
    assert!(range.contains(Handle::from_raw(0x0001)));
    assert!(range.contains(Handle::from_raw(0x0003)));
    assert!(range.contains(Handle::from_raw(0x0005)));
    assert!(!range.contains(Handle::from_raw(0x0000)));
    assert!(!range.contains(Handle::from_raw(0x0006)));
}

#[test]
fn check_rejects_null_start() {
    let err = raw(0x0000, 0x0005).check().unwrap_err();
    assert_eq!(err, AttError::new(ErrorCode::InvalidHandle, Handle::from_raw(0x0000)));
    assert_eq!(err.error_code(), ErrorCode::InvalidHandle);
    assert_eq!(err.handle(), Handle::from_raw(0x0000));
}

#[test]
fn check_rejects_reversed_range() {
    let err = raw(0x0005, 0x0003).check().unwrap_err();
    assert_eq!(err.code, ErrorCode::InvalidHandle);
    assert_eq!(err.handle, Handle::from_raw(0x0005));
}

#[test]
fn check_single_handle_range() {
    let range = raw(0x0007, 0x0007).check().unwrap();
    for v in 0..=u16::MAX {
        assert_eq!(range.contains(Handle::from_raw(v)), v == 0x0007);
    }
}

#[test]
fn check_full_range() {
    let range = raw(0x0001, 0xFFFF).check().unwrap();
    assert!(range.contains(Handle::from_raw(0xFFFF)));
    assert!(!range.contains(Handle::null()));
}

#[test]
fn unchecked_range_keeps_bounds() {
    let range = HandleRange::new(Handle::from_raw(0x0010), Handle::from_raw(0x0020));
    assert_eq!(range.start().as_u16(), 0x0010);
    assert_eq!(range.end().as_u16(), 0x0020);
    assert!(range.contains(Handle::from_raw(0x0015)));
    assert!(!range.contains(Handle::from_raw(0x0021)));
}

#[test]
fn short_handle_decode_fails() {
    assert_eq!(decode_handle(&[0x01]), Err(Error::Eof));
    assert_eq!(decode_handle(&[]), Err(Error::Eof));
}

#[test]
fn short_raw_range_decode_fails() {
    let bytes = [0x01, 0x00, 0x05];
    let mut reader = ByteReader::new(&bytes);
    assert!(matches!(RawHandleRange::from_bytes(&mut reader), Err(Error::Eof)));
}

#[test]
fn raw_range_wire_form() {
    let bytes = [0x01, 0x00, 0x05, 0x00, 0xEE];
    let mut reader = ByteReader::new(&bytes);
    let range = RawHandleRange::from_bytes(&mut reader).unwrap();
    assert_eq!(reader.bytes_left(), 1);
    let checked = range.check().unwrap();
    assert_eq!(checked.start(), Handle::from_raw(0x0001));
    assert_eq!(checked.end(), Handle::from_raw(0x0005));
    assert_eq!(encode(&raw(0x0102, 0x0304), 4).unwrap(), vec![0x02, 0x01, 0x04, 0x03]);
}

#[test]
fn encode_without_room_fails() {
    assert_eq!(encode(&Handle::from_raw(1), 1), Err(Error::InsufficientSpace));
    assert_eq!(encode(&raw(1, 2), 3), Err(Error::InsufficientSpace));
}

#[test]
fn reader_and_writer_cursors_advance() {
    let bytes = [0x01, 0x02, 0x03];
    let mut reader = ByteReader::new(&bytes);
    assert_eq!(reader.read_u16_le(), Ok(0x0201));
    assert_eq!(reader.bytes_left(), 1);
    assert_eq!(reader.read_u16_le(), Err(Error::Eof));
    assert_eq!(reader.bytes_left(), 1);

    let mut writer = ByteWriter::new(3);
    assert_eq!(writer.write_u16_le(0x0A0B), Ok(()));
    assert_eq!(writer.space_left(), 1);
    assert_eq!(writer.write_u16_le(0x0C0D), Err(Error::InsufficientSpace));
    assert_eq!(writer.into_bytes(), vec![0x0B, 0x0A]);
}
