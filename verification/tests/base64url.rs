use bastionclaw::base64url::{decode, encode};

#[test]
fn known_encodings() {
    assert_eq!(encode(b""), "");
    assert_eq!(encode(b"f"), "Zg");
    assert_eq!(encode(b"fo"), "Zm8");
    assert_eq!(encode(b"foo"), "Zm9v");
    assert_eq!(encode(b"foobar"), "Zm9vYmFy");
    assert_eq!(encode(&[0xfb, 0xff, 0xfe]), "-__-");
}

#[test]
fn encodings_decode_back() {
    let bytes: Vec<u8> = (0..=255).collect();
    for n in 0..bytes.len() {
        assert_eq!(decode(&encode(&bytes[..n])), Ok(bytes[..n].to_vec()));
    }
}

#[test]
fn other_texts_are_refused() {
    for text in ["Zg==", "Z", "Zh", "Zm9", "Zm9v+", "Zm9v/", "Zg\n", "Zé"] {
        match decode(text) {
            Ok(_) => panic!("{text} encodes nothing"),
            Err(complaint) => assert!(!complaint.is_empty()),
        }
    }
}
