use travel_backend::identity::UserId;

#[test]
fn parse_reads_the_canonical_text() {
    let id = UserId::parse("11111111-1111-1111-1111-111111111111").unwrap();
    assert_eq!(id.as_u128(), 0x1111_1111_1111_1111_1111_1111_1111_1111);
    assert_eq!(id, UserId::from_u128(0x1111_1111_1111_1111_1111_1111_1111_1111));
}

#[test]
fn to_text_is_hyphenated_lower_case() {
    assert_eq!(UserId::from_u128(0).to_text(), "00000000-0000-0000-0000-000000000000");
    assert_eq!(UserId::from_u128(u128::MAX).to_text(), "ffffffff-ffff-ffff-ffff-ffffffffffff");
    assert_eq!(
        UserId::from_u128(0x0123_4567_89ab_cdef_0123_4567_89ab_cdef).to_text(),
        "01234567-89ab-cdef-0123-456789abcdef"
    );
    assert_eq!(UserId::from_u128(0xa5).to_text(), "00000000-0000-0000-0000-0000000000a5");
}

#[test]
fn text_reads_back() {
    let values: [u128; 5] = [0, 1, 0xdead_beef, u128::MAX - 1, 1 << 127];
    for value in values {
        let id = UserId::from_u128(value);
        assert_eq!(UserId::parse(&id.to_text()), Some(id));
    }
}

#[test]
fn parse_reads_the_other_forms() {
    let expected = Some(UserId::from_u128(0x0123_4567_89ab_cdef_0123_4567_89ab_cdef));
    assert_eq!(UserId::parse("0123456789abcdef0123456789abcdef"), expected);
    assert_eq!(UserId::parse("01234567-89AB-CDEF-0123-456789ABCDEF"), expected);
    assert_eq!(UserId::parse("{01234567-89ab-cdef-0123-456789abcdef}"), expected);
    assert_eq!(UserId::parse("urn:uuid:01234567-89ab-cdef-0123-456789abcdef"), expected);
}

#[test]
fn parse_refuses_what_is_no_identifier() {
    assert_eq!(UserId::parse(""), None);
    assert_eq!(UserId::parse("not-a-user"), None);
    assert_eq!(UserId::parse("11111111-1111-1111-1111-11111111111"), None);
    assert_eq!(UserId::parse("11111111-1111-1111-1111-11111111111g"), None);
    assert_eq!(UserId::parse(" 11111111-1111-1111-1111-111111111111"), None);
}
