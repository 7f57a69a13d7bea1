use bytes::BytesMut;
use ds3os_loader::encrypt::{tea32_decrypt_block, tea32_encrypt_block};
use ds3os_loader::error::{Field, LoaderError};
use ds3os_loader::patch::{
    encode_utf16_le, Patches, SERVER_INFO_HOST_OFFSET, SERVER_INFO_MAX_HOST_SIZE,
    SERVER_INFO_MAX_KEY_SIZE, SERVER_INFO_PATCH_SIZE, SERVER_INFO_TEAENCRYPTION_KEY,
};

#[test]
fn utf16_of_plain_text() {
    assert_eq!(encode_utf16_le("srv"), vec![0x73, 0, 0x72, 0, 0x76, 0]);
    assert_eq!(encode_utf16_le(""), Vec::<u8>::new());
}

#[test]
fn utf16_of_wide_and_paired_characters() {
    // U+00E9, U+4E2D and U+1F600, which takes a surrogate pair.
    assert_eq!(encode_utf16_le("\u{e9}"), vec![0xe9, 0x00]);
    assert_eq!(encode_utf16_le("\u{4e2d}"), vec![0x2d, 0x4e]);
    assert_eq!(encode_utf16_le("\u{1f600}"), vec![0x3d, 0xd8, 0x00, 0xde]);
    let text = "a\u{10ffff}\u{ffff}\u{10000}";
    let mut expected = Vec::new();
    for unit in text.encode_utf16() {
        expected.extend_from_slice(&unit.to_le_bytes());
    }
    assert_eq!(encode_utf16_le(text), expected);
}

#[test]
fn record_of_key_abc_and_host_srv() {
    let record = Patches::build_record("srv", "ABC").unwrap();
    assert_eq!(record.len(), 520);
    assert_eq!(&record[0..3], b"ABC");
    assert!(record[3..432].iter().all(|b| *b == 0));
    assert_eq!(&record[432..438], &[0x73, 0, 0x72, 0, 0x76, 0][..]);
    assert!(record[438..520].iter().all(|b| *b == 0));
}

#[test]
fn encrypted_record_of_key_abc_and_host_srv() {
    let record = Patches::build_record("srv", "ABC").unwrap();
    let cipher = Patches::encrypt("srv", "ABC").unwrap();
    assert_eq!(cipher.len(), 520);
    assert_eq!(cipher.len() / 8, 65);
    for j in 0..65 {
        let mut block = BytesMut::from(&record[8 * j..8 * j + 8]);
        tea32_encrypt_block(&mut block, 0, &SERVER_INFO_TEAENCRYPTION_KEY);
        assert_eq!(&cipher[8 * j..8 * j + 8], &block[..]);
    }
    assert_eq!(&cipher[0..8], &[236, 244, 131, 18, 174, 53, 8, 174][..]);
    assert_eq!(&cipher[8..16], &[40, 65, 123, 165, 239, 66, 186, 229][..]);
    assert_eq!(&cipher[432..440], &[106, 220, 124, 146, 70, 30, 59, 110][..]);
    assert_eq!(&cipher[512..520], &[40, 65, 123, 165, 239, 66, 186, 229][..]);
}

#[test]
fn encrypted_record_decrypts_to_the_record() {
    let record = Patches::build_record("srv", "ABC").unwrap();
    let cipher = Patches::encrypt("srv", "ABC").unwrap();
    let mut buf = BytesMut::from(&cipher[..]);
    for j in 0..65 {
        tea32_decrypt_block(&mut buf, 8 * j, &SERVER_INFO_TEAENCRYPTION_KEY);
    }
    assert_eq!(&buf[..], &record[..]);
}

#[test]
fn limits_of_the_record() {
    assert_eq!(SERVER_INFO_PATCH_SIZE, 520);
    assert_eq!(SERVER_INFO_MAX_KEY_SIZE, 430);
    assert_eq!(SERVER_INFO_HOST_OFFSET, 432);
    assert_eq!(SERVER_INFO_MAX_HOST_SIZE, 170);
    assert_eq!(SERVER_INFO_PATCH_SIZE % 8, 0);
}

#[test]
fn longest_key_fits() {
    let key = "k".repeat(430);
    let record = Patches::build_record("h", &key).unwrap();
    assert_eq!(record.len(), 520);
    assert_eq!(&record[0..430], key.as_bytes());
    assert_eq!(&record[430..432], &[0, 0][..]);
    assert_eq!(&record[432..434], &[b'h', 0][..]);
    assert!(record[434..520].iter().all(|b| *b == 0));
}

#[test]
fn key_beyond_its_limit_is_refused() {
    let key = "k".repeat(431);
    assert_eq!(
        Patches::build_record("h", &key).unwrap_err(),
        LoaderError::Oversize(Field::PublicKey)
    );
    assert_eq!(
        Patches::encrypt("h", &key).unwrap_err(),
        LoaderError::Oversize(Field::PublicKey)
    );
}

#[test]
fn key_is_measured_in_bytes() {
    // 215 characters of two bytes each are 430 bytes; one more byte is too many.
    let key = "\u{e9}".repeat(215);
    assert!(Patches::build_record("h", &key).is_ok());
    let key = format!("{}a", key);
    assert_eq!(
        Patches::build_record("h", &key).unwrap_err(),
        LoaderError::Oversize(Field::PublicKey)
    );
}

#[test]
fn hostname_beyond_its_limit_is_refused() {
    let host = "h".repeat(86);
    assert_eq!(
        Patches::build_record(&host, "ABC").unwrap_err(),
        LoaderError::Oversize(Field::Hostname)
    );
    // 43 characters above the basic plane take 172 bytes.
    let host = "\u{1f600}".repeat(43);
    assert_eq!(
        Patches::build_record(&host, "ABC").unwrap_err(),
        LoaderError::Oversize(Field::Hostname)
    );
}

#[test]
fn key_is_looked_at_before_the_hostname() {
    let key = "k".repeat(431);
    let host = "h".repeat(86);
    assert_eq!(
        Patches::build_record(&host, &key).unwrap_err(),
        LoaderError::Oversize(Field::PublicKey)
    );
}

#[test]
fn hostname_of_forty_four_characters_fills_the_record_to_its_end() {
    let host = "h".repeat(44);
    let record = Patches::build_record(&host, "").unwrap();
    assert_eq!(record.len(), 520);
    assert!(record[0..432].iter().all(|b| *b == 0));
    for i in 0..44 {
        assert_eq!(&record[432 + 2 * i..434 + 2 * i], &[b'h', 0][..]);
    }
}

#[test]
fn hostname_at_its_limit_yields_a_full_record() {
    let host = "h".repeat(85);
    let record = Patches::build_record(&host, "ABC").unwrap();
    assert_eq!(record.len(), 520);
    assert_eq!(&record[0..3], b"ABC");
    assert!(record[3..432].iter().all(|b| *b == 0));
    let encoded = encode_utf16_le(&host);
    assert_eq!(encoded.len(), 170);
    assert_eq!(&record[432..520], &encoded[0..88]);
}

#[test]
fn empty_inputs_give_an_empty_record() {
    let record = Patches::build_record("", "").unwrap();
    assert_eq!(record.len(), 520);
    assert!(record.iter().all(|b| *b == 0));
}
