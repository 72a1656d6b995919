use gio_relay::envelope::DOMAIN;
use gio_relay::{DecodeError, GIORequest, GIOResponse};

fn answer(response: &str) -> GIOResponse {
    GIOResponse { response_code: 200, response: response.to_string() }
}

#[test]
fn wrap_spells_the_body_in_lower_case_hex() {
    let request = GIORequest::wrap(b"Hello");
    assert_eq!(request.domain, 0x2b);
    assert_eq!(request.domain, DOMAIN);
    assert_eq!(request.id, "0x48656c6c6f");
}

#[test]
fn wrap_of_every_byte_value_uses_two_digits() {
    let request = GIORequest::wrap(&[0x00, 0x09, 0x0a, 0x7f]);
    assert_eq!(request.id, "0x00090a7f");
}

#[test]
fn wrap_of_an_empty_body_is_the_bare_marker() {
    let request = GIORequest::wrap(b"");
    assert_eq!(request.id, "0x");
}

#[test]
fn wrap_of_json_text() {
    let request = GIORequest::wrap(b"{\"a\":1}");
    assert_eq!(request.id, "0x7b2261223a317d");
}

#[test]
fn wrap_keeps_multi_byte_text() {
    let request = GIORequest::wrap("h\u{e9}".as_bytes());
    assert_eq!(request.id, "0x68c3a9");
}

#[test]
fn wrap_reads_invalid_bytes_leniently() {
    // 0xff is no UTF-8: it becomes U+FFFD, whose encoding is ef bf bd.
    let request = GIORequest::wrap(&[0x41, 0xff, 0x42]);
    assert_eq!(request.id, "0x41efbfbd42");
}

#[test]
fn wrapped_id_is_well_formed() {
    let request = GIORequest::wrap(&[0xde, 0xad, 0xbe, 0xef, 0x00]);
    assert!(request.id.starts_with("0x"));
    assert_eq!(request.id.len() % 2, 0);
    assert!(request.id[2..].bytes().all(|b| b.is_ascii_digit() || (b'a'..=b'f').contains(&b)));
}

#[test]
fn payload_with_marker() {
    assert_eq!(answer("0x48656c6c6f").payload(), Ok("Hello".to_string()));
}

#[test]
fn payload_without_marker() {
    assert_eq!(answer("48656c6c6f").payload(), Ok("Hello".to_string()));
}

#[test]
fn payload_takes_upper_and_mixed_case() {
    assert_eq!(answer("0x48656C6C6F").payload(), Ok("Hello".to_string()));
    assert_eq!(answer("6b4B").payload(), Ok("kK".to_string()));
}

#[test]
fn payload_of_nothing_is_empty_text() {
    assert_eq!(answer("").payload(), Ok(String::new()));
    assert_eq!(answer("0x").payload(), Ok(String::new()));
}

#[test]
fn payload_strips_one_marker_only() {
    assert_eq!(
        answer("0x0x41").payload(),
        Err(DecodeError::Hex("Invalid character 'x' at position 1".to_string()))
    );
}

#[test]
fn payload_marker_is_lower_case() {
    assert_eq!(
        answer("0X41").payload(),
        Err(DecodeError::Hex("Invalid character 'X' at position 1".to_string()))
    );
}

#[test]
fn payload_rejects_a_letter_that_is_no_digit() {
    assert_eq!(
        answer("zz").payload(),
        Err(DecodeError::Hex("Invalid character 'z' at position 0".to_string()))
    );
}

#[test]
fn payload_rejects_an_odd_number_of_digits() {
    assert_eq!(
        answer("0x123").payload(),
        Err(DecodeError::Hex("Odd number of digits".to_string()))
    );
}

#[test]
fn payload_counts_positions_after_the_marker() {
    assert_eq!(
        answer("0x41g1").payload(),
        Err(DecodeError::Hex("Invalid character 'g' at position 2".to_string()))
    );
}

#[test]
fn payload_reads_digits_byte_by_byte() {
    // One two-byte character: an even number of bytes, neither a digit.
    assert_eq!(
        answer("\u{e9}").payload(),
        Err(DecodeError::Hex("Invalid character '\u{c3}' at position 0".to_string()))
    );
}

#[test]
fn payload_rejects_bytes_that_are_no_utf8() {
    assert_eq!(
        answer("0xff").payload(),
        Err(DecodeError::Utf8("invalid utf-8 sequence of 1 bytes from index 0".to_string()))
    );
}

#[test]
fn payload_rejects_a_truncated_character() {
    assert_eq!(
        answer("41e282").payload(),
        Err(DecodeError::Utf8("incomplete utf-8 byte sequence from index 1".to_string()))
    );
}

#[test]
fn payload_keeps_multi_byte_text() {
    assert_eq!(answer("0x68c3a9").payload(), Ok("h\u{e9}".to_string()));
}

#[test]
fn hex_round_trip_of_utf8_bodies() {
    let bodies = ["", "Hello", "{\"model\":\"x\",\"messages\":[]}", "gr\u{fc}\u{df}e \u{1f600}", "\n\t\0"];
    for body in bodies {
        let request = GIORequest::wrap(body.as_bytes());
        let echoed = GIOResponse { response_code: 200, response: request.id.clone() };
        assert_eq!(echoed.payload(), Ok(body.to_string()));
        let bare = GIOResponse { response_code: 200, response: request.id[2..].to_string() };
        assert_eq!(bare.payload(), Ok(body.to_string()));
    }
}

#[test]
fn envelope_survives_its_json_form() {
    let request = GIORequest::wrap(b"Hello");
    let mut object = serde_json::Map::new();
    object.insert("domain".to_string(), serde_json::Value::from(request.domain));
    object.insert("id".to_string(), serde_json::Value::from(request.id.clone()));
    let text = serde_json::to_string(&serde_json::Value::Object(object)).unwrap();
    assert_eq!(text, "{\"domain\":43,\"id\":\"0x48656c6c6f\"}");
    let parsed: serde_json::Value = serde_json::from_str(&text).unwrap();
    let back = GIORequest {
        domain: parsed["domain"].as_u64().unwrap() as u16,
        id: parsed["id"].as_str().unwrap().to_string(),
    };
    assert_eq!(back, request);
}
