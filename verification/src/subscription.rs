//! The subscription resource: create and manage subscriptions of
//! customers to plans.
//!
//! Every operation builds its URL and body, delegates to the injected
//! HTTP client, and decodes the raw response text into a typed envelope.
//! Nothing is assumed of the network: each contract states what holds of
//! the result whatever text came back.

use vstd::prelude::*;

use std::sync::Arc;

use crate::http::{base_url_chars, paystack_base_url, HttpClient};
use crate::json::{parse_json_text, parsed_json, JVal, JsonValue};
use crate::refund::{opt_dec, opt_pair};
use crate::response::{envelope_parts, envelope_parts_of, Response, ResponseV};
use crate::subscription_models::{
    subscription_of, CreateSubscriptionRequest, FetchSubscriptionRequest, Subscription,
    SubscriptionV, UpdateSubscriptionRequest,
};
use crate::text::u64_to_dec;
use crate::{PaystackAPIError, PaystackResult};

verus! {

/// The base URL of the subscription resource.
pub open spec fn subscription_base_url() -> Seq<char> {
    base_url_chars() + "/subscription"@
}

/// The single-subscription envelope a JSON value decodes to, if any.
pub open spec fn subscription_envelope_of(j: JVal) -> Option<ResponseV<SubscriptionV>> {
    match envelope_parts_of(j) {
        Some((status, message, data)) => match data {
            None => Some(ResponseV { status, message, data: None }),
            Some(d) => match subscription_of(d) {
                Some(s) => Some(ResponseV { status, message, data: Some(s) }),
                None => None,
            },
        },
        None => None,
    }
}

/// The subscriptions a JSON array decodes to, element by element; one
/// failing element fails the whole list.
pub open spec fn subscriptions_of(items: Seq<JVal>) -> Option<Seq<SubscriptionV>>
    decreases items.len(),
{
    if items.len() == 0 {
        Some(Seq::empty())
    } else {
        match (subscriptions_of(items.drop_last()), subscription_of(items.last())) {
            (Some(init), Some(d)) => Some(init.push(d)),
            _ => None,
        }
    }
}

/// One element without a decoding fails the whole list.
proof fn lemma_subscriptions_none(items: Seq<JVal>, k: int)
    requires
        0 <= k < items.len(),
        subscription_of(items[k]) is None,
    ensures
        subscriptions_of(items) is None,
    decreases items.len(),
{
    if k < items.len() - 1 {
        lemma_subscriptions_none(items.drop_last(), k);
    }
}

/// The subscription-list envelope a JSON value decodes to, if any.
pub open spec fn subscription_list_envelope_of(j: JVal) -> Option<ResponseV<Seq<SubscriptionV>>> {
    match envelope_parts_of(j) {
        Some((status, message, data)) => match data {
            None => Some(ResponseV { status, message, data: None }),
            Some(JVal::Arr(items)) => match subscriptions_of(items) {
                Some(ss) => Some(ResponseV { status, message, data: Some(ss) }),
                None => None,
            },
            Some(_) => None,
        },
        None => None,
    }
}

/// The empty-payload envelope a JSON value decodes to, if any: the
/// payload must be omitted or `null`.
pub open spec fn unit_envelope_of(j: JVal) -> Option<ResponseV<()>> {
    match envelope_parts_of(j) {
        Some((status, message, data)) => match data {
            None => Some(ResponseV { status, message, data: None }),
            Some(_) => None,
        },
        None => None,
    }
}

/// The string-payload envelope a JSON value decodes to, if any.
pub open spec fn string_envelope_of(j: JVal) -> Option<ResponseV<Seq<char>>> {
    match envelope_parts_of(j) {
        Some((status, message, data)) => match data {
            None => Some(ResponseV { status, message, data: None }),
            Some(JVal::Str(s)) => Some(ResponseV { status, message, data: Some(s) }),
            Some(_) => None,
        },
        None => None,
    }
}

/// The JSON a single-subscription envelope serializes back to: the
/// success flag, the message, and the payload, an absent payload as
/// `null`.
pub open spec fn subscription_envelope_jval(env: ResponseV<SubscriptionV>) -> JVal {
    JVal::Obj(
        seq![
            ("status"@, JVal::Bool(env.status)),
            ("message"@, JVal::Str(env.message)),
            (
                "data"@,
                match env.data {
                    Some(d) => crate::subscription_models::subscription_jval(d),
                    None => JVal::Null,
                },
            ),
        ],
    )
}

/// The JSON of a subscription envelope reads back as the same envelope:
/// a response decoded and serialized again loses no modeled field.
pub proof fn lemma_subscription_envelope_round_trip(env: ResponseV<SubscriptionV>)
    ensures
        subscription_envelope_of(subscription_envelope_jval(env)) == Some(env),
{
    reveal_strlit("status");
    reveal_strlit("message");
    reveal_strlit("data");
    assert("status"@.len() == 6);
    assert("message"@.len() == 7);
    assert("data"@.len() == 4);
    assert("status"@ != "message"@);
    assert("status"@ != "data"@);
    assert("message"@ != "data"@);
    let ps = subscription_envelope_jval(env)->Obj_0;
    crate::json::lemma_jlookup_at(ps, "status"@, 0);
    crate::json::lemma_jlookup_at(ps, "message"@, 1);
    crate::json::lemma_jlookup_at(ps, "data"@, 2);
    match env.data {
        Some(d) => crate::subscription_models::lemma_subscription_round_trip(d),
        None => (),
    }
    assert(subscription_envelope_of(subscription_envelope_jval(env)) == Some(env));
}

/// The textual cause attached to a response that does not match the
/// expected envelope shape.
fn shape_error() -> (r: String)
    ensures
        r@ == "response did not match the expected envelope"@,
{
    String::from_str("response did not match the expected envelope")
}

/// Decodes response text into a single-subscription envelope: the result
/// is `Ok` exactly when the text parses as JSON and that JSON reads as a
/// subscription envelope, and every failure is a subscription error.
pub fn parse_subscription_response(text: &str) -> (r: PaystackResult<Subscription>)
    ensures
        r matches Ok(env) ==> parsed_json(text@) matches Some(j) && subscription_envelope_of(j)
            == Some(env@),
        r is Ok <==> (parsed_json(text@) matches Some(j) && subscription_envelope_of(j) is Some),
        r matches Err(e) ==> e is Subscription,
        (parsed_json(text@) matches Some(j) && subscription_envelope_of(j) is None) ==> (
        r matches Err(e) && e.message_view() == "response did not match the expected envelope"@),
{
    let v = match parse_json_text(text) {
        Ok(v) => v,
        Err(m) => {
            return Err(PaystackAPIError::Subscription(m));
        },
    };
    let (status, message, data) = match envelope_parts(&v) {
        Some(p) => p,
        None => {
            return Err(PaystackAPIError::Subscription(shape_error()));
        },
    };
    match data {
        None => Ok(Response { status, message, data: None }),
        Some(d) => match Subscription::from_json(&d) {
            Some(s) => Ok(Response { status, message, data: Some(s) }),
            None => Err(PaystackAPIError::Subscription(shape_error())),
        },
    }
}

/// Decodes a JSON array of subscriptions, exactly as `subscriptions_of`
/// does.
fn subscription_list_from_json(arr: &Vec<JsonValue>) -> (r: Option<Vec<Subscription>>)
    ensures
        r matches Some(v) ==> subscriptions_of(crate::json::jvals_of(arr@)) == Some(v.deep_view()),
        r is None <==> subscriptions_of(crate::json::jvals_of(arr@)) is None,
{
    let ghost items = crate::json::jvals_of(arr@);
    let mut out: Vec<Subscription> = Vec::new();
    let n = arr.len();
    let mut i: usize = 0;
    while i < n
        invariant
            i <= n,
            n == arr.len(),
            items == crate::json::jvals_of(arr@),
            out.len() == i,
            subscriptions_of(items.subrange(0, i as int)) == Some(out.deep_view()),
        decreases n - i,
    {
        match Subscription::from_json(&arr[i]) {
            Some(d) => {
                out.push(d);
                proof {
                    let pre = items.subrange(0, i as int);
                    let post = items.subrange(0, i + 1 as int);
                    assert(post.drop_last() =~= pre);
                    assert(post.last() == items[i as int]);
                    assert(subscriptions_of(post) == Some(out.deep_view())) by {
                        assert(out.deep_view() =~= subscriptions_of(pre)->0.push(d@));
                    }
                }
            },
            None => {
                proof {
                    lemma_subscriptions_none(items, i as int);
                }
                return None;
            },
        }
        i += 1;
    }
    proof {
        assert(items.subrange(0, n as int) =~= items);
    }
    Some(out)
}

/// Decodes response text into a subscription-list envelope: the result is
/// `Ok` exactly when the text parses as JSON and that JSON reads as a
/// subscription-list envelope, and every failure is a subscription error.
pub fn parse_subscription_list_response(text: &str) -> (r: PaystackResult<Vec<Subscription>>)
    ensures
        r matches Ok(env) ==> parsed_json(text@) matches Some(j) && subscription_list_envelope_of(
            j,
        ) == Some(env@),
        r is Ok <==> (parsed_json(text@) matches Some(j) && subscription_list_envelope_of(
            j,
        ) is Some),
        r matches Err(e) ==> e is Subscription,
        (parsed_json(text@) matches Some(j) && subscription_list_envelope_of(j) is None) ==> (
        r matches Err(e) && e.message_view() == "response did not match the expected envelope"@),
{
    let v = match parse_json_text(text) {
        Ok(v) => v,
        Err(m) => {
            return Err(PaystackAPIError::Subscription(m));
        },
    };
    let (status, message, data) = match envelope_parts(&v) {
        Some(p) => p,
        None => {
            return Err(PaystackAPIError::Subscription(shape_error()));
        },
    };
    match data {
        None => Ok(Response { status, message, data: None }),
        Some(JsonValue::Arr(items)) => match subscription_list_from_json(&items) {
            Some(ss) => Ok(Response { status, message, data: Some(ss) }),
            None => Err(PaystackAPIError::Subscription(shape_error())),
        },
        Some(_) => Err(PaystackAPIError::Subscription(shape_error())),
    }
}

/// Decodes response text into an empty-payload envelope: the result is
/// `Ok` exactly when the text parses as JSON and that JSON reads as an
/// envelope whose payload is omitted or `null`, and every failure is a
/// subscription error.
pub fn parse_unit_response(text: &str) -> (r: PaystackResult<()>)
    ensures
        r matches Ok(env) ==> parsed_json(text@) matches Some(j) && unit_envelope_of(j) == Some(
            env@,
        ),
        r is Ok <==> (parsed_json(text@) matches Some(j) && unit_envelope_of(j) is Some),
        r matches Err(e) ==> e is Subscription,
        (parsed_json(text@) matches Some(j) && unit_envelope_of(j) is None) ==> (
        r matches Err(e) && e.message_view() == "response did not match the expected envelope"@),
{
    let v = match parse_json_text(text) {
        Ok(v) => v,
        Err(m) => {
            return Err(PaystackAPIError::Subscription(m));
        },
    };
    let (status, message, data) = match envelope_parts(&v) {
        Some(p) => p,
        None => {
            return Err(PaystackAPIError::Subscription(shape_error()));
        },
    };
    match data {
        None => Ok(Response { status, message, data: None }),
        Some(_) => Err(PaystackAPIError::Subscription(shape_error())),
    }
}

/// Decodes response text into a string-payload envelope: the result is
/// `Ok` exactly when the text parses as JSON and that JSON reads as an
/// envelope whose payload, if present, is a string, and every failure is
/// a subscription error.
pub fn parse_string_response(text: &str) -> (r: PaystackResult<String>)
    ensures
        r matches Ok(env) ==> parsed_json(text@) matches Some(j) && string_envelope_of(j) == Some(
            env@,
        ),
        r is Ok <==> (parsed_json(text@) matches Some(j) && string_envelope_of(j) is Some),
        r matches Err(e) ==> e is Subscription,
        (parsed_json(text@) matches Some(j) && string_envelope_of(j) is None) ==> (
        r matches Err(e) && e.message_view() == "response did not match the expected envelope"@),
{
    let v = match parse_json_text(text) {
        Ok(v) => v,
        Err(m) => {
            return Err(PaystackAPIError::Subscription(m));
        },
    };
    let (status, message, data) = match envelope_parts(&v) {
        Some(p) => p,
        None => {
            return Err(PaystackAPIError::Subscription(shape_error()));
        },
    };
    match data {
        None => Ok(Response { status, message, data: None }),
        Some(JsonValue::Str(s)) => Ok(Response { status, message, data: Some(s) }),
        Some(_) => Err(PaystackAPIError::Subscription(shape_error())),
    }
}

/// The query parameters of a subscription list request: exactly the
/// supplied filters, each under its documented name, in the fixed order
/// `perPage`, `page`, `customer`, `plan`.
pub open spec fn subscription_query(
    per_page: Option<u32>,
    page: Option<u32>,
    customer: Option<u32>,
    plan: Option<Seq<char>>,
) -> Seq<(Seq<char>, Seq<char>)> {
    opt_pair("perPage"@, opt_dec(per_page)) + opt_pair("page"@, opt_dec(page)) + opt_pair(
        "customer"@,
        opt_dec(customer),
    ) + opt_pair("plan"@, plan)
}

/// Supplying no optional filters produces an empty query.
pub proof fn lemma_subscription_query_no_filters()
    ensures
        subscription_query(None, None, None, None) =~= Seq::<(Seq<char>, Seq<char>)>::empty(),
{
}

/// A query holds a pair exactly when the matching filter was supplied
/// with that value: nothing else ever enters it.
pub proof fn lemma_subscription_query_exact(
    per_page: Option<u32>,
    page: Option<u32>,
    customer: Option<u32>,
    plan: Option<Seq<char>>,
    name: Seq<char>,
    value: Seq<char>,
)
    ensures
        subscription_query(per_page, page, customer, plan).contains((name, value)) <==> ((name
            == "perPage"@ && opt_dec(per_page) == Some(value)) || (name == "page"@ && opt_dec(page)
            == Some(value)) || (name == "customer"@ && opt_dec(customer) == Some(value)) || (name
            == "plan"@ && plan == Some(value))),
{
    let q = subscription_query(per_page, page, customer, plan);
    if q.contains((name, value)) {
        let i = choose|i: int| 0 <= i < q.len() && q[i] == (name, value);
        assert(q[i] == (name, value));
    }
    if name == "perPage"@ && opt_dec(per_page) == Some(value) {
        assert(q[0] == (name, value));
        assert(q.contains((name, value)));
    }
    if name == "page"@ && opt_dec(page) == Some(value) {
        let i = opt_pair("perPage"@, opt_dec(per_page)).len() as int;
        assert(q[i] == (name, value));
        assert(q.contains((name, value)));
    }
    if name == "customer"@ && opt_dec(customer) == Some(value) {
        let i = (opt_pair("perPage"@, opt_dec(per_page)) + opt_pair("page"@, opt_dec(page))).len()
            as int;
        assert(q[i] == (name, value));
        assert(q.contains((name, value)));
    }
    if name == "plan"@ && plan == Some(value) {
        let i = (opt_pair("perPage"@, opt_dec(per_page)) + opt_pair("page"@, opt_dec(page))
            + opt_pair("customer"@, opt_dec(customer))).len() as int;
        assert(q[i] == (name, value));
        assert(q.contains((name, value)));
    }
}

/// Assembles the query parameters of a subscription list request: only
/// the supplied filters, in the fixed documented order.
pub fn subscription_list_query(request: &FetchSubscriptionRequest) -> (q: Vec<(String, String)>)
    ensures
        q.deep_view() == subscription_query(
            request.per_page,
            request.page,
            request.customer,
            request.plan.deep_view(),
        ),
{
    let mut q: Vec<(String, String)> = Vec::new();
    if let Some(p) = request.per_page {
        q.push((String::from_str("perPage"), u64_to_dec(p as u64)));
    }
    proof {
        assert(q.deep_view() =~= opt_pair("perPage"@, opt_dec(request.per_page)));
    }
    if let Some(p) = request.page {
        q.push((String::from_str("page"), u64_to_dec(p as u64)));
    }
    proof {
        assert(q.deep_view() =~= opt_pair("perPage"@, opt_dec(request.per_page)) + opt_pair(
            "page"@,
            opt_dec(request.page),
        ));
    }
    if let Some(c) = request.customer {
        q.push((String::from_str("customer"), u64_to_dec(c as u64)));
    }
    proof {
        assert(q.deep_view() =~= opt_pair("perPage"@, opt_dec(request.per_page)) + opt_pair(
            "page"@,
            opt_dec(request.page),
        ) + opt_pair("customer"@, opt_dec(request.customer)));
    }
    if let Some(p) = &request.plan {
        q.push((String::from_str("plan"), p.clone()));
    }
    proof {
        assert(q.deep_view() =~= opt_pair("perPage"@, opt_dec(request.per_page)) + opt_pair(
            "page"@,
            opt_dec(request.page),
        ) + opt_pair("customer"@, opt_dec(request.customer)) + opt_pair(
            "plan"@,
            request.plan.deep_view(),
        ));
    }
    q
}

/// The functions of the subscription resource.
#[derive(Debug, Clone)]
pub struct SubscriptionEndpoints<T: HttpClient + Default> {
    /// Paystack API key.
    key: String,
    /// Base URL of the subscription resource.
    base_url: String,
    /// HTTP client of the route.
    http: Arc<T>,
}

impl<T: HttpClient + Default> SubscriptionEndpoints<T> {
    /// The API key every call authenticates with.
    pub closed spec fn spec_key(&self) -> Seq<char> {
        self.key@
    }

    /// The base URL every subscription path is appended to.
    pub closed spec fn spec_base_url(&self) -> Seq<char> {
        self.base_url@
    }

    /// The HTTP client every call delegates to.
    pub closed spec fn spec_http(&self) -> Arc<T> {
        self.http
    }

    /// Creates a subscription endpoint around an API key and an HTTP
    /// client.
    pub fn new(key: Arc<String>, http: Arc<T>) -> (r: SubscriptionEndpoints<T>)
        ensures
            r.spec_key() == key@,
            r.spec_base_url() == subscription_base_url(),
            r.spec_http() == http,
    {
        let mut base_url = paystack_base_url();
        base_url.append("/subscription");
        SubscriptionEndpoints { key: (*key).clone(), base_url, http }
    }

    /// Builds the URL of one subscription: the base URL with the id or
    /// code appended.
    pub fn subscription_url(&self, subscription_id: &str) -> (r: String)
        ensures
            r@ == self.spec_base_url() + "/"@ + subscription_id@,
    {
        let mut url = self.base_url.clone();
        url.append("/");
        url.append(subscription_id);
        url
    }

    /// Builds the URL that enables a subscription.
    pub fn enable_url(&self) -> (r: String)
        ensures
            r@ == self.spec_base_url() + "/enable"@,
    {
        let mut url = self.base_url.clone();
        url.append("/enable");
        url
    }

    /// Builds the URL that disables a subscription.
    pub fn disable_url(&self) -> (r: String)
        ensures
            r@ == self.spec_base_url() + "/disable"@,
    {
        let mut url = self.base_url.clone();
        url.append("/disable");
        url
    }

    /// Builds the URL that generates a card-update link for a
    /// subscription code.
    pub fn manage_link_url(&self, code: &str) -> (r: String)
        ensures
            r@ == self.spec_base_url() + "/"@ + code@ + "/manage/link"@,
    {
        let mut url = self.base_url.clone();
        url.append("/");
        url.append(code);
        url.append("/manage/link");
        url
    }

    /// Builds the URL that emails a card-update link for a subscription
    /// code.
    pub fn manage_email_url(&self, code: &str) -> (r: String)
        ensures
            r@ == self.spec_base_url() + "/"@ + code@ + "/manage/email"@,
    {
        let mut url = self.base_url.clone();
        url.append("/");
        url.append(code);
        url.append("/manage/email");
        url
    }

    /// Creates a subscription; every failure is a subscription error, and
    /// every success is a decoded subscription envelope.
    pub fn create_subscription(&self, create_subscription_request: CreateSubscriptionRequest) -> (r:
        PaystackResult<Subscription>)
        ensures
            r matches Err(e) ==> e is Subscription,
            r matches Ok(env) ==> exists|j: JVal| subscription_envelope_of(j) == Some(env@),
    {
        let body = create_subscription_request.to_json();
        let response = match self.http.post(self.base_url.as_str(), self.key.as_str(), &body) {
            Ok(text) => text,
            Err(e) => {
                return Err(PaystackAPIError::Subscription(e.into_message()));
            },
        };
        parse_subscription_response(response.as_str())
    }

    /// Lists subscriptions. Only the supplied filters enter the query, in
    /// the fixed documented order; every failure is a subscription error,
    /// and every success is a decoded subscription-list envelope.
    pub fn list_subscriptions(&self, fetch_subscription_request: FetchSubscriptionRequest) -> (r:
        PaystackResult<Vec<Subscription>>)
        ensures
            r matches Err(e) ==> e is Subscription,
            r matches Ok(env) ==> exists|j: JVal| subscription_list_envelope_of(j) == Some(env@),
    {
        let query = subscription_list_query(&fetch_subscription_request);
        let response = match self.http.get(
            self.base_url.as_str(),
            self.key.as_str(),
            if query.is_empty() {
                None
            } else {
                Some(&query)
            },
        ) {
            Ok(text) => text,
            Err(e) => {
                return Err(PaystackAPIError::Subscription(e.into_message()));
            },
        };
        parse_subscription_list_response(response.as_str())
    }

    /// Fetches one subscription by its id or code; every failure is a
    /// subscription error, and every success is a decoded subscription
    /// envelope.
    pub fn fetch_subscription(&self, subscription_id: String) -> (r: PaystackResult<Subscription>)
        ensures
            r matches Err(e) ==> e is Subscription,
            r matches Ok(env) ==> exists|j: JVal| subscription_envelope_of(j) == Some(env@),
    {
        let url = self.subscription_url(subscription_id.as_str());
        let response = match self.http.get(url.as_str(), self.key.as_str(), None) {
            Ok(text) => text,
            Err(e) => {
                return Err(PaystackAPIError::Subscription(e.into_message()));
            },
        };
        parse_subscription_response(response.as_str())
    }

    /// Enables a subscription by its code and email token; every failure
    /// is a subscription error, and every success is a decoded envelope
    /// with an empty payload.
    pub fn enable_subscription(&self, update_subscription_request: UpdateSubscriptionRequest) -> (r:
        PaystackResult<()>)
        ensures
            r matches Err(e) ==> e is Subscription,
            r matches Ok(env) ==> exists|j: JVal| unit_envelope_of(j) == Some(env@),
            r matches Ok(env) ==> env.data is None,
    {
        let url = self.enable_url();
        let body = update_subscription_request.to_json();
        let response = match self.http.post(url.as_str(), self.key.as_str(), &body) {
            Ok(text) => text,
            Err(e) => {
                return Err(PaystackAPIError::Subscription(e.into_message()));
            },
        };
        parse_unit_response(response.as_str())
    }

    /// Disables a subscription by its code and email token; every failure
    /// is a subscription error, and every success is a decoded envelope
    /// with an empty payload.
    pub fn disable_subscription(&self, update_subscription_request: UpdateSubscriptionRequest) -> (
        r: PaystackResult<()>)
        ensures
            r matches Err(e) ==> e is Subscription,
            r matches Ok(env) ==> exists|j: JVal| unit_envelope_of(j) == Some(env@),
            r matches Ok(env) ==> env.data is None,
    {
        let url = self.disable_url();
        let body = update_subscription_request.to_json();
        let response = match self.http.post(url.as_str(), self.key.as_str(), &body) {
            Ok(text) => text,
            Err(e) => {
                return Err(PaystackAPIError::Subscription(e.into_message()));
            },
        };
        parse_unit_response(response.as_str())
    }

    /// Generates a link for updating the card on a subscription; every
    /// failure is a subscription error, and every success is a decoded
    /// envelope whose payload, if present, is the link.
    pub fn generate_update_subscription_link(&self, code: String) -> (r: PaystackResult<String>)
        ensures
            r matches Err(e) ==> e is Subscription,
            r matches Ok(env) ==> exists|j: JVal| string_envelope_of(j) == Some(env@),
    {
        let url = self.manage_link_url(code.as_str());
        let response = match self.http.post(url.as_str(), self.key.as_str(), &JsonValue::Null) {
            Ok(text) => text,
            Err(e) => {
                return Err(PaystackAPIError::Subscription(e.into_message()));
            },
        };
        parse_string_response(response.as_str())
    }

    /// Emails the customer a link for updating the card on a
    /// subscription; every failure is a subscription error, and every
    /// success is a decoded envelope whose payload, if present, is the
    /// confirmation text.
    pub fn send_update_subscription_link(&self, code: String) -> (r: PaystackResult<String>)
        ensures
            r matches Err(e) ==> e is Subscription,
            r matches Ok(env) ==> exists|j: JVal| string_envelope_of(j) == Some(env@),
    {
        let url = self.manage_email_url(code.as_str());
        let response = match self.http.post(url.as_str(), self.key.as_str(), &JsonValue::Null) {
            Ok(text) => text,
            Err(e) => {
                return Err(PaystackAPIError::Subscription(e.into_message()));
            },
        };
        parse_string_response(response.as_str())
    }
}

} // verus!
