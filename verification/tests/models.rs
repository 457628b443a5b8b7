use paystack::json::JsonValue;
use paystack::refund::parse_refund_response;
use paystack::text::u64_to_dec;
use paystack::RefundData;

const CREATE_STYLE_BODY: &str = r#"{"status":true,"message":"Refund has been queued for processing","data":{"id":3018284,"integration":463433,"domain":"live","transaction":{"id":1641},"amount":10000,"currency":"NGN","channel":"migs","status":"pending","createdAt":"2024-01-01T10:00:00Z","updatedAt":"2024-01-01T10:00:00Z"}}"#;

const LIST_STYLE_BODY: &str = r#"{"status":true,"message":"Refund retrieved","data":{"id":3018284,"integration":463433,"domain":"live","transaction":1641,"amount":10000,"currency":"NGN","channel":"migs","status":"pending","created_at":"2024-01-01T10:00:00Z","updated_at":"2024-01-01T10:00:00Z"}}"#;

#[test]
fn refund_created_at_decodes_from_either_spelling() {
    let a = parse_refund_response(CREATE_STYLE_BODY).unwrap().data.unwrap();
    let b = parse_refund_response(LIST_STYLE_BODY).unwrap().data.unwrap();

    assert_eq!(Some("2024-01-01T10:00:00Z".to_string()), a.created_at);
    assert_eq!(a.created_at, b.created_at);
    assert_eq!(a.updated_at, b.updated_at);
    assert_eq!(a.id, b.id);
}

#[test]
fn refund_data_survives_an_encode_decode_round_trip() {
    let original = RefundData {
        id: 3018284,
        integration: Some(463433),
        domain: Some("live".to_string()),
        transaction: Some(JsonValue::UInt(1641)),
        amount: 10000,
        deducted_amount: None,
        currency: "NGN".to_string(),
        channel: Some("migs".to_string()),
        fully_deducted: Some(true),
        refunded_by: Some("ops@example.com".to_string()),
        refunded_at: None,
        expected_at: Some("2024-01-09T00:00:00Z".to_string()),
        customer_note: Some("late delivery".to_string()),
        merchant_note: None,
        status: "pending".to_string(),
        created_at: Some("2024-01-01T10:00:00Z".to_string()),
        updated_at: None,
    };

    let encoded = original.to_json();
    let decoded = RefundData::from_json(&encoded).expect("the encoding must decode");

    assert_eq!(original.id, decoded.id);
    assert_eq!(original.integration, decoded.integration);
    assert_eq!(original.domain, decoded.domain);
    assert!(matches!(decoded.transaction, Some(JsonValue::UInt(1641))));
    assert_eq!(original.amount, decoded.amount);
    assert_eq!(original.deducted_amount, decoded.deducted_amount);
    assert_eq!(original.currency, decoded.currency);
    assert_eq!(original.channel, decoded.channel);
    assert_eq!(original.fully_deducted, decoded.fully_deducted);
    assert_eq!(original.refunded_by, decoded.refunded_by);
    assert_eq!(original.refunded_at, decoded.refunded_at);
    assert_eq!(original.expected_at, decoded.expected_at);
    assert_eq!(original.customer_note, decoded.customer_note);
    assert_eq!(original.merchant_note, decoded.merchant_note);
    assert_eq!(original.status, decoded.status);
    assert_eq!(original.created_at, decoded.created_at);
    assert_eq!(original.updated_at, decoded.updated_at);
}

#[test]
fn refund_decoding_rejects_a_wrongly_typed_member() {
    let body = r#"{"status":true,"message":"ok","data":{"id":"not a number","amount":1,"currency":"NGN","status":"pending"}}"#;
    assert!(parse_refund_response(body).is_err());
}

#[test]
fn refund_decoding_accepts_a_minimal_record() {
    let body = r#"{"status":true,"message":"ok","data":{"id":7,"amount":1,"currency":"NGN","status":"pending"}}"#;
    let data = parse_refund_response(body).unwrap().data.unwrap();
    assert_eq!(7, data.id);
    assert_eq!(None, data.created_at);
    assert!(data.transaction.is_none());
}

#[test]
fn numbers_render_in_decimal() {
    assert_eq!("0", u64_to_dec(0));
    assert_eq!("5", u64_to_dec(5));
    assert_eq!("12345", u64_to_dec(12345));
    assert_eq!("18446744073709551615", u64_to_dec(u64::MAX));
}
