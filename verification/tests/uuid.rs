use media::uuid::{InvalidLength, Uuid};

#[test]
fn uuid_bytes_round_trip() {
    let u = Uuid::from_u128(0x0102_0304_0506_0708_090a_0b0c_0d0e_0f10);
    let bytes = u.to_sql();
    assert_eq!(bytes, vec![1, 2, 3, 4, 5, 6, 7, 8, 9, 10, 11, 12, 13, 14, 15, 16]);
    let back = Uuid::from_sql(&bytes).unwrap();
    assert_eq!(back, u);
    assert_eq!(back.as_u128(), 0x0102_0304_0506_0708_090a_0b0c_0d0e_0f10);
}

#[test]
fn uuid_wrong_length_is_refused() {
    assert_eq!(Uuid::from_sql(&[1, 2, 3]), Err(InvalidLength { found: 3 }));
    assert_eq!(Uuid::from_sql(&[0; 17]), Err(InvalidLength { found: 17 }));
}
