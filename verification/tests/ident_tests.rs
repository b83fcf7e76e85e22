use taskgeneral_server::ident::{read_uuid, uuid_string, UserId};

#[test]
fn reads_hyphenated_uuid() {
    assert_eq!(
        read_uuid("a1a2a3a4-b1b2-c1c2-d1d2-d3d4d5d6d7d8"),
        Ok(0xa1a2a3a4b1b2c1c2d1d2d3d4d5d6d7d8u128)
    );
    assert_eq!(read_uuid("00000000-0000-0000-0000-000000000000"), Ok(0));
}

#[test]
fn refuses_text_that_is_no_uuid() {
    let err = read_uuid("not-a-uuid").unwrap_err();
    assert!(!err.is_empty());
    assert_ne!(err, "not-a-uuid");
}

#[test]
fn formats_lowercase_hyphenated() {
    assert_eq!(uuid_string(0xA1A2A3A4B1B2C1C2D1D2D3D4D5D6D7D8), "a1a2a3a4-b1b2-c1c2-d1d2-d3d4d5d6d7d8");
    assert_eq!(UserId::nil().key(), "00000000-0000-0000-0000-000000000000");
}

#[test]
fn formatted_text_reads_back() {
    for value in [0u128, 1, u128::MAX, 0x0123456789abcdef0123456789abcdef] {
        assert_eq!(read_uuid(&uuid_string(value)), Ok(value));
        assert_eq!(read_uuid(&UserId(value).key()), Ok(value));
    }
}
