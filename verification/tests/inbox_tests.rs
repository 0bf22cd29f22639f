use twitton::inbox::{process_inbox, utf8_is_valid};

#[test]
fn valid_utf8_payloads_are_acknowledged_with_empty_object() {
    for body in [
        &b"{}"[..],
        b"",
        b"{\"type\":\"Follow\"}",
        b"not json at all",
        "h\u{e9}llo \u{2603} \u{1f389}".as_bytes(),
    ] {
        let ack = process_inbox(body).unwrap();
        assert_eq!(ack.media_type, "application/json");
        assert_eq!(ack.body, "{}");
    }
}

#[test]
fn invalid_utf8_payloads_are_a_fatal_condition() {
    for body in [
        &[0xffu8][..],
        &[0x80],
        &[0xc0, 0x80],
        &[0xc1, 0xbf],
        &[0xc3],
        &[0xe0, 0x80, 0x80],
        &[0xe0, 0x9f, 0x80],
        &[0xed, 0xa0, 0x80],
        &[0xe2, 0x28, 0xa1],
        &[0xf0, 0x8f, 0x80, 0x80],
        &[0xf4, 0x90, 0x80, 0x80],
        &[0xf5, 0x80, 0x80, 0x80],
        &[0xf8, 0x80, 0x80, 0x80, 0x80],
        &[0x68, 0x69, 0xff],
    ] {
        let err = process_inbox(body).unwrap_err();
        assert_eq!(err.description, "failed to parse body as utf");
    }
}

#[test]
fn utf8_validator_agrees_with_std() {
    let mut cases: Vec<Vec<u8>> = vec![
        b"hello".to_vec(),
        "\u{7f}\u{80}\u{7ff}\u{800}\u{ffff}\u{10000}\u{10ffff}".as_bytes().to_vec(),
        vec![0xe2, 0x82, 0xac],
        vec![0xf0, 0x90, 0x8d, 0x88],
        vec![0xed, 0x9f, 0xbf],
        vec![0xee, 0x80, 0x80],
        vec![0xc2, 0x80],
        vec![0xdf, 0xbf],
    ];
    // every two-byte sequence
    for a in 0..=255u8 {
        for b in (0..=255u8).step_by(7) {
            cases.push(vec![a, b]);
        }
    }
    for case in cases {
        assert_eq!(
            utf8_is_valid(&case),
            std::str::from_utf8(&case).is_ok(),
            "disagreement on {:?}",
            case
        );
    }
}
