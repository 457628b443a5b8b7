use std::sync::Arc;

use paystack::{
    CreateSubscriptionRequestBuilder, FetchSubscriptionRequestBuilder, HttpClient, JsonValue,
    PaystackAPIError, SubscriptionEndpoints, TransportError, UpdateSubscriptionRequestBuilder,
};

/// A client that answers every call with the same response text.
#[derive(Debug, Default)]
struct FixedClient {
    body: String,
}

impl HttpClient for FixedClient {
    fn get(
        &self,
        _url: &str,
        _key: &str,
        _query: Option<&Vec<(String, String)>>,
    ) -> Result<String, TransportError> {
        Ok(self.body.clone())
    }

    fn post(&self, _url: &str, _key: &str, _body: &JsonValue) -> Result<String, TransportError> {
        Ok(self.body.clone())
    }
}

/// A client whose every call fails with the same transport error.
#[derive(Debug, Default)]
struct FailingClient {
    message: String,
}

impl HttpClient for FailingClient {
    fn get(
        &self,
        _url: &str,
        _key: &str,
        _query: Option<&Vec<(String, String)>>,
    ) -> Result<String, TransportError> {
        Err(TransportError::new(self.message.clone()))
    }

    fn post(&self, _url: &str, _key: &str, _body: &JsonValue) -> Result<String, TransportError> {
        Err(TransportError::new(self.message.clone()))
    }
}

fn subscription_client<T: HttpClient + Default>(http: Arc<T>) -> SubscriptionEndpoints<T> {
    SubscriptionEndpoints::new(Arc::new("sk_test_SECRET-REDACTED".to_string()), http)
}

const CREATED_BODY: &str = r#"{"status":true,"message":"Subscription successfully created","data":{"customer":123,"plan":7,"integration":100032,"domain":"test","start":1659403640,"status":"complete","quantity":1,"amount":50000,"subscription_code":"SUB_abc","email_token":"tok_1","authorization":{"authorization_code":"AUTH_xyz","bin":"408408","last4":"4081","channel":"card","reusable":true,"signature":"SIG_1"},"easy_cron_id":null,"cron_expression":"0 0 28 * *","next_payment_date":"2024-09-28T00:00:00.000Z","open_invoice":null,"id":316,"createdAt":"2024-08-28T10:00:00.000Z","updatedAt":"2024-08-28T10:00:00.000Z"}}"#;

#[test]
fn create_subscription_valid() {
    let client = subscription_client(Arc::new(FixedClient { body: CREATED_BODY.to_string() }));

    let res = client
        .create_subscription(
            CreateSubscriptionRequestBuilder::default()
                .customer("CUS_xyz".to_string())
                .plan("PLN_abc".to_string())
                .build()
                .expect("Error creating subscription request"),
        )
        .expect("unable to create transaction");

    assert!(res.status);
    assert_eq!("Subscription successfully created", res.message);
    let data = res.data.expect("the created subscription should be returned");
    assert_eq!(316, data.id);
    assert_eq!("SUB_abc", data.subscription_code);
    assert_eq!("AUTH_xyz", data.authorization.authorization_code);
}

#[test]
fn enable_subscription_returns_an_empty_payload() {
    let body = r#"{"status":true,"message":"Subscription enabled successfully"}"#;
    let client = subscription_client(Arc::new(FixedClient { body: body.to_string() }));

    let request = UpdateSubscriptionRequestBuilder::default()
        .code("SUB_abc".to_string())
        .token("tok_1".to_string())
        .build()
        .unwrap();

    let res = client.enable_subscription(request).unwrap();
    assert!(res.status);
    assert_eq!("Subscription enabled successfully", res.message);
    assert!(res.data.is_none());
}

#[test]
fn disable_subscription_maps_transport_failures_to_a_subscription_error() {
    let client = subscription_client(Arc::new(FailingClient {
        message: "connection reset".to_string(),
    }));

    let request = UpdateSubscriptionRequestBuilder::default()
        .code("SUB_abc".to_string())
        .token("tok_1".to_string())
        .build()
        .unwrap();

    match client.disable_subscription(request) {
        Err(PaystackAPIError::Subscription(msg)) => assert_eq!("connection reset", msg),
        other => panic!("expected a subscription error, got {other:?}"),
    }
}

#[test]
fn generate_update_subscription_link_returns_the_link() {
    let body = r#"{"status":true,"message":"Link generated","data":"https://paystack.com/manage/sub_link"}"#;
    let client = subscription_client(Arc::new(FixedClient { body: body.to_string() }));

    let res = client
        .generate_update_subscription_link("SUB_abc".to_string())
        .unwrap();
    assert!(res.status);
    assert_eq!(
        Some("https://paystack.com/manage/sub_link".to_string()),
        res.data
    );
}

#[test]
fn update_subscription_builder_requires_token_and_code() {
    let missing_token = UpdateSubscriptionRequestBuilder::default()
        .code("SUB_abc".to_string())
        .build();
    match missing_token {
        Ok(_) => panic!("a builder without a token must not build"),
        Err(e) => assert_eq!("token", e.field),
    }

    let missing_code = UpdateSubscriptionRequestBuilder::default()
        .token("tok_1".to_string())
        .build();
    match missing_code {
        Ok(_) => panic!("a builder without a code must not build"),
        Err(e) => assert_eq!("code", e.field),
    }
}

#[test]
fn create_subscription_builder_requires_a_plan() {
    let res = CreateSubscriptionRequestBuilder::default()
        .customer("CUS_xyz".to_string())
        .build();
    match res {
        Ok(_) => panic!("a builder without a plan must not build"),
        Err(e) => assert_eq!("plan", e.field),
    }
}

#[test]
fn fetch_subscription_builder_never_fails() {
    let request = FetchSubscriptionRequestBuilder::default()
        .per_page(50)
        .build()
        .unwrap();
    assert_eq!(Some(50), request.per_page);
    assert_eq!(None, request.page);
    assert_eq!(None, request.customer);
    assert_eq!(None, request.plan);
}

#[test]
fn list_subscriptions_decodes_every_record() {
    let body = r#"{"status":true,"message":"Subscriptions retrieved","data":[{"customer":123,"plan":7,"integration":100032,"domain":"live","start":1659403640,"status":"complete","quantity":1,"amount":50000,"subscription_code":"SUB_abc","email_token":"tok_1","authorization":{"authorization_code":"AUTH_xyz","bin":"408408","last4":"4081","channel":"card","reusable":true,"signature":"SIG_1"},"easy_cron_id":null,"cron_expression":"0 0 28 * *","next_payment_date":"2024-09-28T00:00:00.000Z","open_invoice":null,"id":316,"createdAt":"2024-08-28T10:00:00.000Z","updatedAt":"2024-08-28T10:00:00.000Z"}]}"#;
    let client = subscription_client(Arc::new(FixedClient { body: body.to_string() }));

    let request = FetchSubscriptionRequestBuilder::default().build().unwrap();
    let res = client.list_subscriptions(request).unwrap();
    assert!(res.status);
    let records = res.data.unwrap();
    assert_eq!(1, records.len());
    assert_eq!(paystack::Domain::Live, records[0].domain);
    assert_eq!(paystack::SubscriptionStatus::Complete, records[0].status);
}

#[test]
fn fetch_subscription_decodes_the_record() {
    let client = subscription_client(Arc::new(FixedClient { body: CREATED_BODY.to_string() }));

    let res = client.fetch_subscription("SUB_abc".to_string()).unwrap();
    let data = res.data.unwrap();
    assert_eq!(316, data.id);
    assert_eq!(123, data.customer);
    assert_eq!(paystack::Domain::Test, data.domain);
    assert_eq!("2024-08-28T10:00:00.000Z", data.created_at);
}

#[test]
fn domains_and_statuses_spell_in_lower_case() {
    assert_eq!("live", paystack::Domain::Live.to_str());
    assert_eq!("test", paystack::Domain::Test.to_str());
    assert_eq!("complete", paystack::SubscriptionStatus::Complete.to_str());
}

#[test]
fn subscription_timestamps_decode_from_either_spelling() {
    let snake_body = r#"{"status":true,"message":"Subscription retrieved","data":{"customer":123,"plan":7,"integration":100032,"domain":"test","start":1659403640,"status":"complete","quantity":1,"amount":50000,"subscription_code":"SUB_abc","email_token":"tok_1","authorization":{"authorization_code":"AUTH_xyz","bin":"408408","last4":"4081","channel":"card","reusable":true,"signature":"SIG_1"},"easy_cron_id":null,"cron_expression":"0 0 28 * *","next_payment_date":"2024-09-28T00:00:00.000Z","open_invoice":null,"id":316,"created_at":"2024-08-28T10:00:00.000Z","updated_at":"2024-08-28T10:00:00.000Z"}}"#;

    let camel = subscription_client(Arc::new(FixedClient { body: CREATED_BODY.to_string() }))
        .fetch_subscription("SUB_abc".to_string())
        .unwrap()
        .data
        .unwrap();
    let snake = subscription_client(Arc::new(FixedClient { body: snake_body.to_string() }))
        .fetch_subscription("SUB_abc".to_string())
        .unwrap()
        .data
        .unwrap();

    assert_eq!("2024-08-28T10:00:00.000Z", camel.created_at);
    assert_eq!(camel.created_at, snake.created_at);
    assert_eq!(camel.updated_at, snake.updated_at);
    assert_eq!(camel.id, snake.id);
}
