use isupipe::icon::{from_base64, icon_hash};

#[test]
fn an_image_is_decoded_from_base64() {
    assert_eq!(from_base64("aGVsbG8="), Ok(b"hello".to_vec()));
    assert_eq!(from_base64("/9j/4AAQ"), Ok(vec![0xff, 0xd8, 0xff, 0xe0, 0x00, 0x10]));
    assert_eq!(from_base64(""), Ok(Vec::new()));
}

#[test]
fn text_that_is_no_base64_is_refused() {
    assert_eq!(from_base64("aGVsbG8"), Err("Invalid padding".to_owned()));
    assert_eq!(from_base64("aGV$bG8="), Err("Invalid byte 36, offset 3.".to_owned()));
    assert!(from_base64("_-_-").is_err());
}

#[test]
fn an_icon_is_known_by_its_sha256() {
    assert_eq!(
        icon_hash(&Vec::new()),
        "e3b0c44298fc1c149afbf4c8996fb92427ae41e4649b934ca495991b7852b855"
    );
    assert_eq!(
        icon_hash(&b"abc".to_vec()),
        "ba7816bf8f01cfea414140de5dae2223b00361a396177a9cb410ff61f20015ad"
    );
}
