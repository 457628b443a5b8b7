//! The injected HTTP capability that performs the actual network calls.
//!
//! The library never promises anything about what the network returns:
//! every endpoint contract states what holds of the result whatever text
//! came back.

use vstd::prelude::*;

use crate::json::JsonValue;

verus! {

/// A failure of the transport layer, carrying its textual description.
#[derive(Debug, Clone)]
pub struct TransportError {
    /// The description of the failure.
    pub message: String,
}

impl TransportError {
    /// Wraps a textual description of a transport failure.
    pub fn new(message: String) -> (r: TransportError)
        ensures
            r.message == message,
    {
        TransportError { message }
    }

    /// Hands the description out, consuming the error.
    pub fn into_message(self) -> (r: String)
        ensures
            r == self.message,
    {
        self.message
    }
}

/// The polymorphic HTTP capability every endpoint delegates to. Both calls
/// authenticate with a bearer-style API key and hand back the raw response
/// text, or a transport error. Nothing is assumed of either result.
pub trait HttpClient {
    /// Issues a GET request, with the given query parameters if any.
    fn get(&self, url: &str, key: &str, query: Option<&Vec<(String, String)>>) -> Result<
        String,
        TransportError,
    >;

    /// Issues a POST request with a JSON body.
    fn post(&self, url: &str, key: &str, body: &JsonValue) -> Result<String, TransportError>;
}

/// The documented base URL that every resource path is relative to.
pub open spec fn base_url_chars() -> Seq<char> {
    "https://api.paystack.co"@
}

/// Builds the base URL that every resource path is appended to.
pub fn paystack_base_url() -> (r: String)
    ensures
        r@ == base_url_chars(),
{
    String::from_str("https://api.paystack.co")
}

} // verus!
