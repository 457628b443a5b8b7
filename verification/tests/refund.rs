use std::cell::RefCell;
use std::sync::Arc;

use paystack::{
    CreateRefundRequestBuilder, HttpClient, JsonValue, PaystackAPIError, RefundAccountDetails,
    RefundEndpoints, RetryRefundRequestBuilder, TransportError,
};

/// A client that answers every call with the same response text.
#[derive(Debug, Default)]
struct FixedClient {
    body: String,
}

impl HttpClient for FixedClient {
    fn get(
        &self,
        _url: &str,
        _key: &str,
        _query: Option<&Vec<(String, String)>>,
    ) -> Result<String, TransportError> {
        Ok(self.body.clone())
    }

    fn post(&self, _url: &str, _key: &str, _body: &JsonValue) -> Result<String, TransportError> {
        Ok(self.body.clone())
    }
}

/// A client whose every call fails with the same transport error.
#[derive(Debug, Default)]
struct FailingClient {
    message: String,
}

impl HttpClient for FailingClient {
    fn get(
        &self,
        _url: &str,
        _key: &str,
        _query: Option<&Vec<(String, String)>>,
    ) -> Result<String, TransportError> {
        Err(TransportError::new(self.message.clone()))
    }

    fn post(&self, _url: &str, _key: &str, _body: &JsonValue) -> Result<String, TransportError> {
        Err(TransportError::new(self.message.clone()))
    }
}

/// A client that records the URL and query of each call and answers with
/// a fixed response text.
#[derive(Debug, Default)]
struct RecordingClient {
    body: String,
    seen_url: RefCell<Option<String>>,
    seen_query: RefCell<Option<Option<Vec<(String, String)>>>>,
}

impl HttpClient for RecordingClient {
    fn get(
        &self,
        url: &str,
        _key: &str,
        query: Option<&Vec<(String, String)>>,
    ) -> Result<String, TransportError> {
        *self.seen_url.borrow_mut() = Some(url.to_owned());
        *self.seen_query.borrow_mut() = Some(query.cloned());
        Ok(self.body.clone())
    }

    fn post(&self, url: &str, _key: &str, _body: &JsonValue) -> Result<String, TransportError> {
        *self.seen_url.borrow_mut() = Some(url.to_owned());
        Ok(self.body.clone())
    }
}

fn refund_client<T: HttpClient + Default>(http: Arc<T>) -> RefundEndpoints<T> {
    RefundEndpoints::new(Arc::new("sk_test_SECRET-REDACTED".to_string()), http)
}

const EMPTY_LIST_BODY: &str = r#"{"status":true,"message":"Refunds retrieved","data":[]}"#;

#[test]
fn list_refunds_succeeds() {
    let client = refund_client(Arc::new(FixedClient { body: EMPTY_LIST_BODY.to_string() }));

    let response = client
        .list_refunds(None, None, None, None, Some(5), None)
        .expect("unable to list refunds");

    assert!(response.status);
    assert_eq!("Refunds retrieved", response.message);
}

#[test]
fn create_refund_fails_for_invalid_transaction() {
    let client = refund_client(Arc::new(FailingClient { message: "status code: 400".to_string() }));

    let body = CreateRefundRequestBuilder::default()
        .transaction("invalid_transaction_reference".to_string())
        .build()
        .unwrap();

    let res = client.create_refund(body);

    match res {
        Ok(_) => (),
        Err(e) => {
            let msg = e.description();
            assert!(
                msg.contains("status code: 400") || msg.contains("status code: 404"),
                "unexpected error: {msg}"
            );
        }
    }
}

#[test]
fn fetch_refund_fails_for_nonexistent_id() {
    let client = refund_client(Arc::new(FailingClient { message: "status code: 404".to_string() }));

    let res = client.fetch_refund(0);

    match res {
        Ok(_) => (),
        Err(e) => {
            let msg = e.description();
            assert!(
                msg.contains("status code: 400")
                    || msg.contains("status code: 404")
                    || msg.contains("Refund Error"),
                "unexpected error: {msg}"
            );
        }
    }
}

#[test]
fn list_refunds_with_no_filters_sends_no_query() {
    let http = Arc::new(RecordingClient {
        body: EMPTY_LIST_BODY.to_string(),
        ..Default::default()
    });
    let client = refund_client(http.clone());

    let response = client.list_refunds(None, None, None, None, None, None).unwrap();
    assert!(response.status);

    assert_eq!(Some(None), *http.seen_query.borrow());
    assert_eq!(
        Some("https://api.paystack.co/refund".to_string()),
        *http.seen_url.borrow()
    );
}

#[test]
fn list_refunds_sends_exactly_the_supplied_filters_in_order() {
    let http = Arc::new(RecordingClient {
        body: EMPTY_LIST_BODY.to_string(),
        ..Default::default()
    });
    let client = refund_client(http.clone());

    client
        .list_refunds(Some("tx_123"), None, None, Some("2024-01-31"), Some(12345), None)
        .unwrap();

    let query = http.seen_query.borrow().clone().unwrap().unwrap();
    assert_eq!(
        vec![
            ("transaction".to_string(), "tx_123".to_string()),
            ("to".to_string(), "2024-01-31".to_string()),
            ("perPage".to_string(), "12345".to_string()),
        ],
        query
    );
}

#[test]
fn fetch_refund_appends_the_id_to_the_path() {
    let http = Arc::new(RecordingClient {
        body: r#"{"status":false,"message":"Refund not found"}"#.to_string(),
        ..Default::default()
    });
    let client = refund_client(http.clone());

    let response = client.fetch_refund(42).unwrap();
    assert!(!response.status);
    assert!(response.data.is_none());

    assert_eq!(
        Some("https://api.paystack.co/refund/42".to_string()),
        *http.seen_url.borrow()
    );
}

#[test]
fn create_refund_builder_requires_a_transaction() {
    let res = CreateRefundRequestBuilder::default().amount(100).build();
    match res {
        Ok(_) => panic!("a builder without a transaction must not build"),
        Err(e) => assert_eq!("transaction", e.field),
    }
}

#[test]
fn create_refund_maps_an_error_body_to_a_refund_error() {
    let client = refund_client(Arc::new(FixedClient { body: "not json at all".to_string() }));

    let body = CreateRefundRequestBuilder::default()
        .transaction("tx_1".to_string())
        .build()
        .unwrap();

    match client.create_refund(body) {
        Err(PaystackAPIError::Refund(msg)) => assert!(!msg.is_empty()),
        other => panic!("expected a refund error, got {other:?}"),
    }
}

#[test]
fn create_refund_request_serializes_every_field() {
    let request = CreateRefundRequestBuilder::default()
        .transaction("tx_9".to_string())
        .currency("NGN".to_string())
        .build()
        .unwrap();

    let body = request.to_json();
    let members = match body {
        JsonValue::Obj(members) => members,
        other => panic!("a request body must be an object, got {other:?}"),
    };
    assert_eq!(5, members.len());
    assert_eq!("transaction", members[0].0);
    assert!(matches!(&members[0].1, JsonValue::Str(s) if s == "tx_9"));
    assert_eq!("amount", members[1].0);
    assert!(matches!(members[1].1, JsonValue::Null));
    assert_eq!("currency", members[2].0);
    assert!(matches!(&members[2].1, JsonValue::Str(s) if s == "NGN"));
    assert_eq!("customer_note", members[3].0);
    assert!(matches!(members[3].1, JsonValue::Null));
    assert_eq!("merchant_note", members[4].0);
    assert!(matches!(members[4].1, JsonValue::Null));
}

#[test]
fn retry_refund_appends_the_subpath_and_id() {
    let http = Arc::new(RecordingClient {
        body: r#"{"status":true,"message":"Refund retry initiated"}"#.to_string(),
        ..Default::default()
    });
    let client = refund_client(http.clone());

    let details = RefundAccountDetails {
        currency: "NGN".to_string(),
        account_number: "0123456789".to_string(),
        bank_id: "57".to_string(),
    };
    let request = RetryRefundRequestBuilder::default()
        .refund_account_details(details)
        .build()
        .unwrap();

    let response = client.retry_refund(77, request).unwrap();
    assert!(response.status);

    assert_eq!(
        Some("https://api.paystack.co/refund/retry_with_customer_details/77".to_string()),
        *http.seen_url.borrow()
    );
}

#[test]
fn retry_refund_builder_requires_account_details() {
    let res = RetryRefundRequestBuilder::default().build();
    match res {
        Ok(_) => panic!("a builder without account details must not build"),
        Err(e) => assert_eq!("refund_account_details", e.field),
    }
}
