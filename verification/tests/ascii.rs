use gap_buffer::ascii::Ascii;
use gap_buffer::ascii::NotAsciiError;

#[test]
fn good_ascii() {
    let bytes: Vec<u8> = b"ASCII and ye shall receive".to_vec();

    // This call entails no allocation or text copies, just a scan.
    let ascii: Ascii = Ascii::from_bytes(bytes).unwrap();  // We know these chosen bytes are ok.

    let string = String::from(ascii);

    assert_eq!(string, "ASCII and ye shall receive");
}

#[test]
fn rejected_bytes_come_back() {
    let bytes = vec![0x41, 0xf7, 0xbf];
    let err = Ascii::from_bytes(bytes).unwrap_err();
    assert_eq!(err, NotAsciiError(vec![0x41, 0xf7, 0xbf]));
}

#[test]
fn boundary_byte() {
    assert!(Ascii::from_bytes(vec![0x7f]).is_ok());
    assert!(Ascii::from_bytes(vec![0x80]).is_err());
    let empty = Ascii::from_bytes(Vec::new()).unwrap();
    assert_eq!(String::from(empty), "");
}
