//! The refund resource: create and manage transaction refunds.
//!
//! Every operation builds its URL and body, delegates to the injected
//! HTTP client, and decodes the raw response text into a typed envelope.
//! Nothing is assumed of the network: each contract states what holds of
//! the result whatever text came back.

use vstd::prelude::*;

use std::sync::Arc;

use crate::http::{base_url_chars, paystack_base_url, HttpClient};
use crate::json::{parse_json_text, parsed_json, JVal, JsonValue};
use crate::refund_models::{
    refund_data_of, CreateRefundRequest, RefundData, RefundDataV, RetryRefundRequest,
};
use crate::response::{envelope_parts, envelope_parts_of, Response, ResponseV};
use crate::text::{dec_str, u64_to_dec};
use crate::{PaystackAPIError, PaystackResult};

verus! {

/// The base URL of the refund resource.
pub open spec fn refund_base_url() -> Seq<char> {
    base_url_chars() + "/refund"@
}

/// The single-refund envelope a JSON value decodes to, if any: the
/// envelope fields, with a present payload decoded as refund data.
pub open spec fn refund_envelope_of(j: JVal) -> Option<ResponseV<RefundDataV>> {
    match envelope_parts_of(j) {
        Some((status, message, data)) => match data {
            None => Some(ResponseV { status, message, data: None }),
            Some(d) => match refund_data_of(d) {
                Some(rd) => Some(ResponseV { status, message, data: Some(rd) }),
                None => None,
            },
        },
        None => None,
    }
}

/// The refunds a JSON array decodes to, element by element; one failing
/// element fails the whole list.
pub open spec fn refund_datas_of(items: Seq<JVal>) -> Option<Seq<RefundDataV>>
    decreases items.len(),
{
    if items.len() == 0 {
        Some(Seq::empty())
    } else {
        match (refund_datas_of(items.drop_last()), refund_data_of(items.last())) {
            (Some(init), Some(d)) => Some(init.push(d)),
            _ => None,
        }
    }
}

/// One element without a decoding fails the whole list.
proof fn lemma_refund_datas_none(items: Seq<JVal>, k: int)
    requires
        0 <= k < items.len(),
        refund_data_of(items[k]) is None,
    ensures
        refund_datas_of(items) is None,
    decreases items.len(),
{
    if k < items.len() - 1 {
        lemma_refund_datas_none(items.drop_last(), k);
    }
}

/// The refund-list envelope a JSON value decodes to, if any: the envelope
/// fields, with a present payload decoded as an array of refund data.
pub open spec fn refund_list_envelope_of(j: JVal) -> Option<ResponseV<Seq<RefundDataV>>> {
    match envelope_parts_of(j) {
        Some((status, message, data)) => match data {
            None => Some(ResponseV { status, message, data: None }),
            Some(JVal::Arr(items)) => match refund_datas_of(items) {
                Some(rds) => Some(ResponseV { status, message, data: Some(rds) }),
                None => None,
            },
            Some(_) => None,
        },
        None => None,
    }
}

/// The textual cause attached to a response that does not match the
/// expected envelope shape.
fn shape_error() -> (r: String)
    ensures
        r@ == "response did not match the expected envelope"@,
{
    String::from_str("response did not match the expected envelope")
}

/// Decodes response text into a single-refund envelope: the result is
/// `Ok` exactly when the text parses as JSON and that JSON reads as a
/// refund envelope, and every failure is a refund error.
pub fn parse_refund_response(text: &str) -> (r: PaystackResult<RefundData>)
    ensures
        r matches Ok(env) ==> parsed_json(text@) matches Some(j) && refund_envelope_of(j) == Some(
            env@,
        ),
        r is Ok <==> (parsed_json(text@) matches Some(j) && refund_envelope_of(j) is Some),
        r matches Err(e) ==> e is Refund,
        (parsed_json(text@) matches Some(j) && refund_envelope_of(j) is None) ==> (
        r matches Err(e) && e.message_view() == "response did not match the expected envelope"@),
{
    let v = match parse_json_text(text) {
        Ok(v) => v,
        Err(m) => {
            return Err(PaystackAPIError::Refund(m));
        },
    };
    let (status, message, data) = match envelope_parts(&v) {
        Some(p) => p,
        None => {
            return Err(PaystackAPIError::Refund(shape_error()));
        },
    };
    match data {
        None => Ok(Response { status, message, data: None }),
        Some(d) => match RefundData::from_json(&d) {
            Some(rd) => Ok(Response { status, message, data: Some(rd) }),
            None => Err(PaystackAPIError::Refund(shape_error())),
        },
    }
}

/// Decodes a JSON array of refunds, exactly as `refund_datas_of` does.
fn refund_list_from_json(arr: &Vec<JsonValue>) -> (r: Option<Vec<RefundData>>)
    ensures
        r matches Some(v) ==> refund_datas_of(crate::json::jvals_of(arr@)) == Some(v.deep_view()),
        r is None <==> refund_datas_of(crate::json::jvals_of(arr@)) is None,
{
    let ghost items = crate::json::jvals_of(arr@);
    let mut out: Vec<RefundData> = Vec::new();
    let n = arr.len();
    let mut i: usize = 0;
    while i < n
        invariant
            i <= n,
            n == arr.len(),
            items == crate::json::jvals_of(arr@),
            out.len() == i,
            refund_datas_of(items.subrange(0, i as int)) == Some(out.deep_view()),
        decreases n - i,
    {
        match RefundData::from_json(&arr[i]) {
            Some(d) => {
                out.push(d);
                proof {
                    let pre = items.subrange(0, i as int);
                    let post = items.subrange(0, i + 1 as int);
                    assert(post.drop_last() =~= pre);
                    assert(post.last() == items[i as int]);
                    assert(refund_datas_of(post) == Some(out.deep_view())) by {
                        assert(out.deep_view() =~= refund_datas_of(pre)->0.push(d@));
                    }
                }
            },
            None => {
                proof {
                    lemma_refund_datas_none(items, i as int);
                }
                return None;
            },
        }
        i += 1;
    }
    proof {
        assert(items.subrange(0, n as int) =~= items);
    }
    Some(out)
}

/// Decodes response text into a refund-list envelope: the result is `Ok`
/// exactly when the text parses as JSON and that JSON reads as a
/// refund-list envelope, and every failure is a refund error.
pub fn parse_refund_list_response(text: &str) -> (r: PaystackResult<Vec<RefundData>>)
    ensures
        r matches Ok(env) ==> parsed_json(text@) matches Some(j) && refund_list_envelope_of(j)
            == Some(env@),
        r is Ok <==> (parsed_json(text@) matches Some(j) && refund_list_envelope_of(j) is Some),
        r matches Err(e) ==> e is Refund,
        (parsed_json(text@) matches Some(j) && refund_list_envelope_of(j) is None) ==> (
        r matches Err(e) && e.message_view() == "response did not match the expected envelope"@),
{
    let v = match parse_json_text(text) {
        Ok(v) => v,
        Err(m) => {
            return Err(PaystackAPIError::Refund(m));
        },
    };
    let (status, message, data) = match envelope_parts(&v) {
        Some(p) => p,
        None => {
            return Err(PaystackAPIError::Refund(shape_error()));
        },
    };
    match data {
        None => Ok(Response { status, message, data: None }),
        Some(JsonValue::Arr(items)) => match refund_list_from_json(&items) {
            Some(rds) => Ok(Response { status, message, data: Some(rds) }),
            None => Err(PaystackAPIError::Refund(shape_error())),
        },
        Some(_) => Err(PaystackAPIError::Refund(shape_error())),
    }
}

/// The JSON a single-refund envelope serializes back to: the success
/// flag, the message, and the payload, an absent payload as `null`.
pub open spec fn refund_envelope_jval(env: ResponseV<RefundDataV>) -> JVal {
    JVal::Obj(
        seq![
            ("status"@, JVal::Bool(env.status)),
            ("message"@, JVal::Str(env.message)),
            (
                "data"@,
                match env.data {
                    Some(d) => crate::refund_models::refund_data_jval(d),
                    None => JVal::Null,
                },
            ),
        ],
    )
}

/// The JSON of a refund envelope reads back as the same envelope: a
/// response decoded and serialized again loses no modeled field. The one
/// payload shape left out carries a bare `null` transaction member, which
/// reads back as an absent one.
pub proof fn lemma_refund_envelope_round_trip(env: ResponseV<RefundDataV>)
    requires
        env.data matches Some(d) ==> !(d.transaction matches Some(t) && t is Null),
    ensures
        refund_envelope_of(refund_envelope_jval(env)) == Some(env),
{
    reveal_strlit("status");
    reveal_strlit("message");
    reveal_strlit("data");
    assert("status"@.len() == 6);
    assert("message"@.len() == 7);
    assert("data"@.len() == 4);
    assert("status"@ != "message"@);
    assert("status"@ != "data"@);
    assert("message"@ != "data"@);
    let ps = refund_envelope_jval(env)->Obj_0;
    crate::json::lemma_jlookup_at(ps, "status"@, 0);
    crate::json::lemma_jlookup_at(ps, "message"@, 1);
    crate::json::lemma_jlookup_at(ps, "data"@, 2);
    match env.data {
        Some(d) => crate::refund_models::lemma_refund_data_round_trip(d),
        None => (),
    }
    assert(refund_envelope_of(refund_envelope_jval(env)) == Some(env));
}

/// A query-string fragment: nothing for an absent filter, one pair for a
/// present one.
pub open spec fn opt_pair(name: Seq<char>, v: Option<Seq<char>>) -> Seq<(Seq<char>, Seq<char>)> {
    match v {
        Some(s) => seq![(name, s)],
        None => Seq::empty(),
    }
}

/// The decimal spelling of an optional number.
pub open spec fn opt_dec(o: Option<u32>) -> Option<Seq<char>> {
    match o {
        Some(p) => Some(dec_str(p as nat)),
        None => None,
    }
}

/// The query parameters of a refund list request: exactly the supplied
/// filters, each under its documented name, in the fixed order
/// `transaction`, `currency`, `from`, `to`, `perPage`, `page`.
pub open spec fn refund_query(
    transaction: Option<Seq<char>>,
    currency: Option<Seq<char>>,
    from: Option<Seq<char>>,
    to: Option<Seq<char>>,
    per_page: Option<u32>,
    page: Option<u32>,
) -> Seq<(Seq<char>, Seq<char>)> {
    opt_pair("transaction"@, transaction) + opt_pair("currency"@, currency) + opt_pair(
        "from"@,
        from,
    ) + opt_pair("to"@, to) + opt_pair("perPage"@, opt_dec(per_page)) + opt_pair(
        "page"@,
        opt_dec(page),
    )
}

/// Supplying no optional filters produces an empty query.
pub proof fn lemma_refund_query_no_filters()
    ensures
        refund_query(None, None, None, None, None, None) =~= Seq::<(Seq<char>, Seq<char>)>::empty(),
{
}

/// A query holds a pair exactly when the matching filter was supplied
/// with that value: nothing else ever enters it.
pub proof fn lemma_refund_query_exact(
    transaction: Option<Seq<char>>,
    currency: Option<Seq<char>>,
    from: Option<Seq<char>>,
    to: Option<Seq<char>>,
    per_page: Option<u32>,
    page: Option<u32>,
    name: Seq<char>,
    value: Seq<char>,
)
    ensures
        refund_query(transaction, currency, from, to, per_page, page).contains((name, value))
            <==> ((name == "transaction"@ && transaction == Some(value)) || (name == "currency"@
            && currency == Some(value)) || (name == "from"@ && from == Some(value)) || (name
            == "to"@ && to == Some(value)) || (name == "perPage"@ && opt_dec(per_page) == Some(
            value,
        )) || (name == "page"@ && opt_dec(page) == Some(value))),
{
    let q = refund_query(transaction, currency, from, to, per_page, page);
    if q.contains((name, value)) {
        let i = choose|i: int| 0 <= i < q.len() && q[i] == (name, value);
        assert(q[i] == (name, value));
    }
    if name == "transaction"@ && transaction == Some(value) {
        assert(q[0] == (name, value));
        assert(q.contains((name, value)));
    }
    if name == "currency"@ && currency == Some(value) {
        let i = opt_pair("transaction"@, transaction).len() as int;
        assert(q[i] == (name, value));
        assert(q.contains((name, value)));
    }
    if name == "from"@ && from == Some(value) {
        let i = (opt_pair("transaction"@, transaction) + opt_pair("currency"@, currency)).len()
            as int;
        assert(q[i] == (name, value));
        assert(q.contains((name, value)));
    }
    if name == "to"@ && to == Some(value) {
        let i = (opt_pair("transaction"@, transaction) + opt_pair("currency"@, currency) + opt_pair(
            "from"@,
            from,
        )).len() as int;
        assert(q[i] == (name, value));
        assert(q.contains((name, value)));
    }
    if name == "perPage"@ && opt_dec(per_page) == Some(value) {
        let i = (opt_pair("transaction"@, transaction) + opt_pair("currency"@, currency) + opt_pair(
            "from"@,
            from,
        ) + opt_pair("to"@, to)).len() as int;
        assert(q[i] == (name, value));
        assert(q.contains((name, value)));
    }
    if name == "page"@ && opt_dec(page) == Some(value) {
        let i = (opt_pair("transaction"@, transaction) + opt_pair("currency"@, currency) + opt_pair(
            "from"@,
            from,
        ) + opt_pair("to"@, to) + opt_pair("perPage"@, opt_dec(per_page))).len() as int;
        assert(q[i] == (name, value));
        assert(q.contains((name, value)));
    }
}

/// Assembles the query parameters of a refund list request: only the
/// supplied filters, in the fixed documented order.
pub fn refund_list_query(
    transaction: Option<&str>,
    currency: Option<&str>,
    from: Option<&str>,
    to: Option<&str>,
    per_page: Option<u32>,
    page: Option<u32>,
) -> (q: Vec<(String, String)>)
    ensures
        q.deep_view() == refund_query(
            transaction.deep_view(),
            currency.deep_view(),
            from.deep_view(),
            to.deep_view(),
            per_page,
            page,
        ),
{
    let mut q: Vec<(String, String)> = Vec::new();
    if let Some(t) = transaction {
        q.push((String::from_str("transaction"), t.to_owned()));
    }
    proof {
        assert(q.deep_view() =~= opt_pair("transaction"@, transaction.deep_view()));
    }
    if let Some(c) = currency {
        q.push((String::from_str("currency"), c.to_owned()));
    }
    proof {
        assert(q.deep_view() =~= opt_pair("transaction"@, transaction.deep_view()) + opt_pair(
            "currency"@,
            currency.deep_view(),
        ));
    }
    if let Some(f) = from {
        q.push((String::from_str("from"), f.to_owned()));
    }
    proof {
        assert(q.deep_view() =~= opt_pair("transaction"@, transaction.deep_view()) + opt_pair(
            "currency"@,
            currency.deep_view(),
        ) + opt_pair("from"@, from.deep_view()));
    }
    if let Some(t) = to {
        q.push((String::from_str("to"), t.to_owned()));
    }
    proof {
        assert(q.deep_view() =~= opt_pair("transaction"@, transaction.deep_view()) + opt_pair(
            "currency"@,
            currency.deep_view(),
        ) + opt_pair("from"@, from.deep_view()) + opt_pair("to"@, to.deep_view()));
    }
    if let Some(p) = per_page {
        q.push((String::from_str("perPage"), u64_to_dec(p as u64)));
    }
    proof {
        assert(q.deep_view() =~= opt_pair("transaction"@, transaction.deep_view()) + opt_pair(
            "currency"@,
            currency.deep_view(),
        ) + opt_pair("from"@, from.deep_view()) + opt_pair("to"@, to.deep_view()) + opt_pair(
            "perPage"@,
            opt_dec(per_page),
        ));
    }
    if let Some(p) = page {
        q.push((String::from_str("page"), u64_to_dec(p as u64)));
    }
    proof {
        assert(q.deep_view() =~= opt_pair("transaction"@, transaction.deep_view()) + opt_pair(
            "currency"@,
            currency.deep_view(),
        ) + opt_pair("from"@, from.deep_view()) + opt_pair("to"@, to.deep_view()) + opt_pair(
            "perPage"@,
            opt_dec(per_page),
        ) + opt_pair("page"@, opt_dec(page)));
    }
    q
}

/// The functions of the refund resource.
#[derive(Debug, Clone)]
pub struct RefundEndpoints<T: HttpClient + Default> {
    /// Paystack API key.
    key: String,
    /// Base URL of the refund resource.
    base_url: String,
    /// HTTP client of the route.
    http: Arc<T>,
}

impl<T: HttpClient + Default> RefundEndpoints<T> {
    /// The API key every call authenticates with.
    pub closed spec fn spec_key(&self) -> Seq<char> {
        self.key@
    }

    /// The base URL every refund path is appended to.
    pub closed spec fn spec_base_url(&self) -> Seq<char> {
        self.base_url@
    }

    /// The HTTP client every call delegates to.
    pub closed spec fn spec_http(&self) -> Arc<T> {
        self.http
    }

    /// Creates a refund endpoint around an API key and an HTTP client.
    pub fn new(key: Arc<String>, http: Arc<T>) -> (r: RefundEndpoints<T>)
        ensures
            r.spec_key() == key@,
            r.spec_base_url() == refund_base_url(),
            r.spec_http() == http,
    {
        let mut base_url = paystack_base_url();
        base_url.append("/refund");
        RefundEndpoints { key: (*key).clone(), base_url, http }
    }

    /// Builds the URL of one refund: the base URL with the id appended.
    pub fn refund_url(&self, id: u64) -> (r: String)
        ensures
            r@ == self.spec_base_url() + "/"@ + dec_str(id as nat),
    {
        let mut url = self.base_url.clone();
        url.append("/");
        let id_text = u64_to_dec(id);
        url.append(id_text.as_str());
        url
    }

    /// Builds the URL of a refund retry: the base URL with the retry
    /// sub-path and the id appended.
    pub fn retry_refund_url(&self, id: u64) -> (r: String)
        ensures
            r@ == self.spec_base_url() + "/retry_with_customer_details/"@ + dec_str(id as nat),
    {
        let mut url = self.base_url.clone();
        url.append("/retry_with_customer_details/");
        let id_text = u64_to_dec(id);
        url.append(id_text.as_str());
        url
    }

    /// Initiates a refund. The request body is the JSON the request
    /// serializes to; every failure is a refund error, and every success
    /// is a decoded refund envelope.
    pub fn create_refund(&self, request: CreateRefundRequest) -> (r: PaystackResult<RefundData>)
        ensures
            r matches Err(e) ==> e is Refund,
            r matches Ok(env) ==> exists|j: JVal| refund_envelope_of(j) == Some(env@),
    {
        let body = request.to_json();
        let response = match self.http.post(self.base_url.as_str(), self.key.as_str(), &body) {
            Ok(text) => text,
            Err(e) => {
                return Err(PaystackAPIError::Refund(e.into_message()));
            },
        };
        parse_refund_response(response.as_str())
    }

    /// Retries a previously failed refund with the customer's bank
    /// account details; every failure is a refund error, and every
    /// success is a decoded refund envelope.
    pub fn retry_refund(&self, id: u64, request: RetryRefundRequest) -> (r: PaystackResult<
        RefundData,
    >)
        ensures
            r matches Err(e) ==> e is Refund,
            r matches Ok(env) ==> exists|j: JVal| refund_envelope_of(j) == Some(env@),
    {
        let url = self.retry_refund_url(id);
        let body = request.to_json();
        let response = match self.http.post(url.as_str(), self.key.as_str(), &body) {
            Ok(text) => text,
            Err(e) => {
                return Err(PaystackAPIError::Refund(e.into_message()));
            },
        };
        parse_refund_response(response.as_str())
    }

    /// Lists refunds. Only the supplied filters enter the query, in the
    /// fixed documented order; every failure is a refund error, and every
    /// success is a decoded refund-list envelope.
    pub fn list_refunds(
        &self,
        transaction: Option<&str>,
        currency: Option<&str>,
        from: Option<&str>,
        to: Option<&str>,
        per_page: Option<u32>,
        page: Option<u32>,
    ) -> (r: PaystackResult<Vec<RefundData>>)
        ensures
            r matches Err(e) ==> e is Refund,
            r matches Ok(env) ==> exists|j: JVal| refund_list_envelope_of(j) == Some(env@),
    {
        let query = refund_list_query(transaction, currency, from, to, per_page, page);
        let response = match self.http.get(
            self.base_url.as_str(),
            self.key.as_str(),
            if query.is_empty() {
                None
            } else {
                Some(&query)
            },
        ) {
            Ok(text) => text,
            Err(e) => {
                return Err(PaystackAPIError::Refund(e.into_message()));
            },
        };
        parse_refund_list_response(response.as_str())
    }

    /// Fetches one refund by its numeric id; every failure is a refund
    /// error, and every success is a decoded refund envelope.
    pub fn fetch_refund(&self, id: u64) -> (r: PaystackResult<RefundData>)
        ensures
            r matches Err(e) ==> e is Refund,
            r matches Ok(env) ==> exists|j: JVal| refund_envelope_of(j) == Some(env@),
    {
        let url = self.refund_url(id);
        let response = match self.http.get(url.as_str(), self.key.as_str(), None) {
            Ok(text) => text,
            Err(e) => {
                return Err(PaystackAPIError::Refund(e.into_message()));
            },
        };
        parse_refund_response(response.as_str())
    }
}

} // verus!
