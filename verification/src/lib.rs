//! A typed client library for the Paystack payment-processing REST API.
//!
//! Each module corresponds to one API resource group (refunds,
//! subscriptions), providing request builders, response models, and the
//! request/response marshaling that every endpoint shares: URL building,
//! query-parameter assembly, JSON encoding of request bodies, and decoding
//! of response envelopes into typed results.

use vstd::prelude::*;

pub mod http;
pub mod json;
pub mod refund;
pub mod refund_models;
pub mod response;
pub mod subscription;
pub mod subscription_models;
pub mod text;

pub use http::{HttpClient, TransportError};
pub use json::JsonValue;
pub use refund::RefundEndpoints;
pub use refund_models::{
    CreateRefundRequest, CreateRefundRequestBuilder, RefundAccountDetails, RefundData,
    RetryRefundRequest, RetryRefundRequestBuilder,
};
pub use response::Response;
pub use subscription::SubscriptionEndpoints;
pub use subscription_models::{
    Authorization, CreateSubscriptionRequest, CreateSubscriptionRequestBuilder, Domain,
    FetchSubscriptionRequest, FetchSubscriptionRequestBuilder, Subscription, SubscriptionStatus,
    UpdateSubscriptionRequest, UpdateSubscriptionRequestBuilder,
};

verus! {

/// The error type of the library: one variant per resource group, each
/// carrying a descriptive string produced from the underlying
/// serialization, transport, or deserialization failure.
#[derive(Debug, Clone)]
pub enum PaystackAPIError {
    /// A refund operation failed.
    Refund(String),
    /// A subscription operation failed.
    Subscription(String),
}

/// The outcome of every endpoint operation: a decoded response envelope,
/// or the resource's error.
pub type PaystackResult<T> = Result<crate::response::Response<T>, PaystackAPIError>;

/// The failure a request builder reports when a required field was never
/// set; it names that field.
#[derive(Debug, Clone)]
pub struct BuilderError {
    /// The required field that is missing.
    pub field: String,
}

impl PaystackAPIError {
    /// The descriptive cause carried by the error.
    pub fn description(&self) -> (r: &String)
        ensures
            r@ == self.message_view(),
    {
        match self {
            PaystackAPIError::Refund(m) => m,
            PaystackAPIError::Subscription(m) => m,
        }
    }

    /// The view of the descriptive cause carried by the error.
    pub open spec fn message_view(&self) -> Seq<char> {
        match self {
            PaystackAPIError::Refund(m) => m@,
            PaystackAPIError::Subscription(m) => m@,
        }
    }
}

} // verus!
