use openquest::quiz_services::{
    contract_address_bytes, frame_hex, quiz_response_payload, quiz_response_text, PayloadError,
};
use openquest::db::DatabaseResponse;
use openquest::routes::create_quiz_outcome;

#[test]
fn response_bodies_quote_and_escape() {
    let r = create_quiz_outcome("a\"b", Err(DatabaseResponse::new(404, "gone".to_string())));
    assert_eq!(r.status_code, 201);
    assert_eq!(r.body, "\"a\\\"b\"");
}

#[test]
fn hex_digits_in_either_case_are_read() {
    assert_eq!(quiz_response_payload("0x0A0b"), Some(Ok(vec![10, 11])));
    assert_eq!(quiz_response_payload("ff00"), Some(Ok(vec![255, 0])));
    assert_eq!(quiz_response_payload("0x"), Some(Ok(vec![])));
}

#[test]
fn quiz_data_is_framed_as_hex() {
    assert_eq!(frame_hex(&[0xde, 0xad, 0x01]), "0xdead01");
    assert_eq!(frame_hex(&[]), "0x");
}

#[test]
fn short_answers_mean_no_result_yet() {
    assert_eq!(quiz_response_text(&[1, 2, 3]), "false");
    assert_eq!(quiz_response_payload(&quiz_response_text(&[1, 2, 3])), None);
    assert_eq!(quiz_response_payload("false"), None);
}

#[test]
fn answers_read_back() {
    let answer = [0x7b, 0x22, 0x75, 0x22, 0x7d];
    let text = quiz_response_text(&answer);
    assert_eq!(text, "0x7b2275227d");
    assert_eq!(quiz_response_payload(&text), Some(Ok(answer.to_vec())));
    assert_eq!(quiz_response_payload("0x0x0A0b"), Some(Ok(vec![10, 11])));
}

#[test]
fn malformed_answers_are_reported() {
    assert_eq!(quiz_response_payload("0xzz"), Some(Err(PayloadError::InvalidHex)));
    assert_eq!(quiz_response_payload("0x123"), Some(Err(PayloadError::InvalidHex)));
}

#[test]
fn address_is_the_topic_tail() {
    let topic: Vec<u8> = (0u8..32).collect();
    assert_eq!(contract_address_bytes(&topic), (12u8..32).collect::<Vec<u8>>());
}
