//! Refund request and response models.
//!
//! Request bodies are built through builders that default unset optional
//! fields to `None` and refuse to build while a required field is missing.
//! The response model decodes from a JSON value exactly as `refund_data_of`
//! says, and encodes back without losing any modeled field.

use vstd::prelude::*;

use crate::json::{
    alias_opt_str, get_alias_opt_string, get_opt_bool, get_opt_json, get_opt_string, get_opt_u64,
    get_req_string, get_req_u64, jany_opt, jbool_opt, jnum_opt, jstr_opt, jv_any_opt, jv_bool_opt,
    jv_num_opt, jv_str_opt, jmembers_of, lemma_jlookup_at, opt_bool, opt_jval, opt_str, opt_u64,
    req_str, req_u64, JVal, JsonValue,
};
use crate::BuilderError;

verus! {

/// Request body for creating a refund. Build with
/// `CreateRefundRequestBuilder`; `transaction` is required, the rest are
/// optional.
#[derive(Debug, Clone)]
pub struct CreateRefundRequest {
    /// Transaction reference or id.
    pub transaction: String,
    /// Amount to refund, in the subunit of the supported currency.
    pub amount: Option<u64>,
    /// Currency of the refund.
    pub currency: Option<String>,
    /// Customer-facing reason for the refund.
    pub customer_note: Option<String>,
    /// Merchant-facing reason for the refund.
    pub merchant_note: Option<String>,
}

/// The mathematical model of a create-refund request.
pub struct CreateRefundRequestV {
    /// Transaction reference or id.
    pub transaction: Seq<char>,
    /// Amount to refund.
    pub amount: Option<u64>,
    /// Currency of the refund.
    pub currency: Option<Seq<char>>,
    /// Customer-facing reason.
    pub customer_note: Option<Seq<char>>,
    /// Merchant-facing reason.
    pub merchant_note: Option<Seq<char>>,
}

impl View for CreateRefundRequest {
    type V = CreateRefundRequestV;

    open spec fn view(&self) -> CreateRefundRequestV {
        CreateRefundRequestV {
            transaction: self.transaction@,
            amount: self.amount,
            currency: self.currency.deep_view(),
            customer_note: self.customer_note.deep_view(),
            merchant_note: self.merchant_note.deep_view(),
        }
    }
}

/// The JSON body that a create-refund request serializes to: every field in
/// declaration order, unset optional fields as `null`.
pub open spec fn create_refund_jval(v: CreateRefundRequestV) -> JVal {
    JVal::Obj(
        seq![
            ("transaction"@, JVal::Str(v.transaction)),
            ("amount"@, jnum_opt(v.amount)),
            ("currency"@, jstr_opt(v.currency)),
            ("customer_note"@, jstr_opt(v.customer_note)),
            ("merchant_note"@, jstr_opt(v.merchant_note)),
        ],
    )
}

impl CreateRefundRequest {
    /// Builds the JSON body that the wire carries for this request.
    pub fn to_json(&self) -> (r: JsonValue)
        ensures
            r@ == create_refund_jval(self@),
    {
        let mut ps: Vec<(String, JsonValue)> = Vec::new();
        ps.push((String::from_str("transaction"), JsonValue::Str(self.transaction.clone())));
        ps.push((String::from_str("amount"), jv_num_opt(&self.amount)));
        ps.push((String::from_str("currency"), jv_str_opt(&self.currency)));
        ps.push((String::from_str("customer_note"), jv_str_opt(&self.customer_note)));
        ps.push((String::from_str("merchant_note"), jv_str_opt(&self.merchant_note)));
        proof {
            assert(jmembers_of(ps@) =~= create_refund_jval(self@)->Obj_0);
        }
        JsonValue::Obj(ps)
    }
}

/// Builder for `CreateRefundRequest`: `transaction` is required, every
/// other field defaults to `None`.
#[derive(Debug, Clone)]
pub struct CreateRefundRequestBuilder {
    /// The required transaction reference, once set.
    pub transaction: Option<String>,
    /// The refund amount, once set.
    pub amount: Option<u64>,
    /// The refund currency, once set.
    pub currency: Option<String>,
    /// The customer-facing note, once set.
    pub customer_note: Option<String>,
    /// The merchant-facing note, once set.
    pub merchant_note: Option<String>,
}

impl Default for CreateRefundRequestBuilder {
    /// An empty builder: nothing set.
    fn default() -> (r: Self)
        ensures
            r.transaction is None,
            r.amount is None,
            r.currency is None,
            r.customer_note is None,
            r.merchant_note is None,
    {
        CreateRefundRequestBuilder {
            transaction: None,
            amount: None,
            currency: None,
            customer_note: None,
            merchant_note: None,
        }
    }
}

impl CreateRefundRequestBuilder {
    /// Sets the required transaction reference.
    pub fn transaction(self, transaction: String) -> (r: Self)
        ensures
            r == (Self { transaction: Some(transaction), ..self }),
    {
        Self { transaction: Some(transaction), ..self }
    }

    /// Sets the refund amount.
    pub fn amount(self, amount: u64) -> (r: Self)
        ensures
            r == (Self { amount: Some(amount), ..self }),
    {
        Self { amount: Some(amount), ..self }
    }

    /// Sets the refund currency.
    pub fn currency(self, currency: String) -> (r: Self)
        ensures
            r == (Self { currency: Some(currency), ..self }),
    {
        Self { currency: Some(currency), ..self }
    }

    /// Sets the customer-facing note.
    pub fn customer_note(self, customer_note: String) -> (r: Self)
        ensures
            r == (Self { customer_note: Some(customer_note), ..self }),
    {
        Self { customer_note: Some(customer_note), ..self }
    }

    /// Sets the merchant-facing note.
    pub fn merchant_note(self, merchant_note: String) -> (r: Self)
        ensures
            r == (Self { merchant_note: Some(merchant_note), ..self }),
    {
        Self { merchant_note: Some(merchant_note), ..self }
    }

    /// Builds the request. Fails, before any network call could happen,
    /// exactly when the required `transaction` field was never set.
    pub fn build(self) -> (r: Result<CreateRefundRequest, BuilderError>)
        ensures
            r is Ok <==> self.transaction is Some,
            r matches Ok(t) ==> t == (CreateRefundRequest {
                transaction: self.transaction->0,
                amount: self.amount,
                currency: self.currency,
                customer_note: self.customer_note,
                merchant_note: self.merchant_note,
            }),
            r matches Err(e) ==> e.field@ == "transaction"@,
    {
        match self.transaction {
            Some(transaction) => Ok(
                CreateRefundRequest {
                    transaction,
                    amount: self.amount,
                    currency: self.currency,
                    customer_note: self.customer_note,
                    merchant_note: self.merchant_note,
                },
            ),
            None => Err(BuilderError { field: String::from_str("transaction") }),
        }
    }
}

/// Customer bank account details used when retrying a refund.
#[derive(Debug, Clone)]
pub struct RefundAccountDetails {
    /// The currency of the customer's bank account.
    pub currency: String,
    /// The customer's account number.
    pub account_number: String,
    /// The bank id.
    pub bank_id: String,
}

/// The mathematical model of the account details.
pub struct RefundAccountDetailsV {
    /// The currency of the account.
    pub currency: Seq<char>,
    /// The account number.
    pub account_number: Seq<char>,
    /// The bank id.
    pub bank_id: Seq<char>,
}

impl View for RefundAccountDetails {
    type V = RefundAccountDetailsV;

    open spec fn view(&self) -> RefundAccountDetailsV {
        RefundAccountDetailsV {
            currency: self.currency@,
            account_number: self.account_number@,
            bank_id: self.bank_id@,
        }
    }
}

/// The JSON object that the account details serialize to.
pub open spec fn account_details_jval(v: RefundAccountDetailsV) -> JVal {
    JVal::Obj(
        seq![
            ("currency"@, JVal::Str(v.currency)),
            ("account_number"@, JVal::Str(v.account_number)),
            ("bank_id"@, JVal::Str(v.bank_id)),
        ],
    )
}

impl RefundAccountDetails {
    /// Builds the JSON object that the wire carries for these details.
    pub fn to_json(&self) -> (r: JsonValue)
        ensures
            r@ == account_details_jval(self@),
    {
        let mut ps: Vec<(String, JsonValue)> = Vec::new();
        ps.push((String::from_str("currency"), JsonValue::Str(self.currency.clone())));
        ps.push((String::from_str("account_number"), JsonValue::Str(self.account_number.clone())));
        ps.push((String::from_str("bank_id"), JsonValue::Str(self.bank_id.clone())));
        proof {
            assert(jmembers_of(ps@) =~= account_details_jval(self@)->Obj_0);
        }
        JsonValue::Obj(ps)
    }
}

/// Request body for retrying a failed refund. Build with
/// `RetryRefundRequestBuilder`; the account details are required.
#[derive(Debug, Clone)]
pub struct RetryRefundRequest {
    /// The customer's bank account details for the retry.
    pub refund_account_details: RefundAccountDetails,
}

/// The mathematical model of a retry-refund request.
pub struct RetryRefundRequestV {
    /// The account details for the retry.
    pub refund_account_details: RefundAccountDetailsV,
}

impl View for RetryRefundRequest {
    type V = RetryRefundRequestV;

    open spec fn view(&self) -> RetryRefundRequestV {
        RetryRefundRequestV { refund_account_details: self.refund_account_details@ }
    }
}

/// The JSON body that a retry-refund request serializes to.
pub open spec fn retry_refund_jval(v: RetryRefundRequestV) -> JVal {
    JVal::Obj(seq![("refund_account_details"@, account_details_jval(v.refund_account_details))])
}

impl RetryRefundRequest {
    /// Builds the JSON body that the wire carries for this request.
    pub fn to_json(&self) -> (r: JsonValue)
        ensures
            r@ == retry_refund_jval(self@),
    {
        let mut ps: Vec<(String, JsonValue)> = Vec::new();
        ps.push(
            (String::from_str("refund_account_details"), self.refund_account_details.to_json()),
        );
        proof {
            assert(jmembers_of(ps@) =~= retry_refund_jval(self@)->Obj_0);
        }
        JsonValue::Obj(ps)
    }
}

/// Builder for `RetryRefundRequest`: the account details are required.
#[derive(Debug, Clone)]
pub struct RetryRefundRequestBuilder {
    /// The required account details, once set.
    pub refund_account_details: Option<RefundAccountDetails>,
}

impl Default for RetryRefundRequestBuilder {
    /// An empty builder: nothing set.
    fn default() -> (r: Self)
        ensures
            r.refund_account_details is None,
    {
        RetryRefundRequestBuilder { refund_account_details: None }
    }
}

impl RetryRefundRequestBuilder {
    /// Sets the required account details.
    pub fn refund_account_details(self, refund_account_details: RefundAccountDetails) -> (r: Self)
        ensures
            r.refund_account_details == Some(refund_account_details),
    {
        Self { refund_account_details: Some(refund_account_details) }
    }

    /// Builds the request. Fails, before any network call could happen,
    /// exactly when the required account details were never set.
    pub fn build(self) -> (r: Result<RetryRefundRequest, BuilderError>)
        ensures
            r is Ok <==> self.refund_account_details is Some,
            r matches Ok(t) ==> t == (RetryRefundRequest {
                refund_account_details: self.refund_account_details->0,
            }),
            r matches Err(e) ==> e.field@ == "refund_account_details"@,
    {
        match self.refund_account_details {
            Some(refund_account_details) => Ok(RetryRefundRequest { refund_account_details }),
            None => Err(BuilderError { field: String::from_str("refund_account_details") }),
        }
    }
}

/// Refund data returned by the create, fetch, list, and retry operations.
///
/// The `transaction` member is a full transaction object on create, but a
/// plain numeric id on list and fetch; it is kept as a raw JSON value to
/// carry both shapes.
#[derive(Debug, Clone)]
pub struct RefundData {
    /// Refund id.
    pub id: u64,
    /// Integration id.
    pub integration: Option<u64>,
    /// Domain (`live` or `test`).
    pub domain: Option<String>,
    /// The transaction this refund belongs to.
    pub transaction: Option<JsonValue>,
    /// Refund amount in the lowest denomination of the currency.
    pub amount: u64,
    /// Amount deducted from the integration's balance.
    pub deducted_amount: Option<u64>,
    /// Currency of the refund.
    pub currency: String,
    /// Refund channel.
    pub channel: Option<String>,
    /// Whether the full amount was deducted.
    pub fully_deducted: Option<bool>,
    /// Email of the person who initiated the refund.
    pub refunded_by: Option<String>,
    /// When the refund was processed.
    pub refunded_at: Option<String>,
    /// When the refund is expected to complete.
    pub expected_at: Option<String>,
    /// Customer-facing note.
    pub customer_note: Option<String>,
    /// Merchant-facing note.
    pub merchant_note: Option<String>,
    /// Refund status, e.g. `pending`, `processing`, `processed`, `failed`.
    pub status: String,
    /// When the refund was created; the wire spells it `created_at` on list
    /// and `createdAt` on create.
    pub created_at: Option<String>,
    /// When the refund was last updated; the wire spells it `updated_at` on
    /// list and `updatedAt` on create.
    pub updated_at: Option<String>,
}

impl DeepView for RefundData {
    type V = RefundDataV;

    open spec fn deep_view(&self) -> RefundDataV {
        self.view()
    }
}

/// The mathematical model of a refund record.
pub struct RefundDataV {
    pub id: u64,
    pub integration: Option<u64>,
    pub domain: Option<Seq<char>>,
    pub transaction: Option<JVal>,
    pub amount: u64,
    pub deducted_amount: Option<u64>,
    pub currency: Seq<char>,
    pub channel: Option<Seq<char>>,
    pub fully_deducted: Option<bool>,
    pub refunded_by: Option<Seq<char>>,
    pub refunded_at: Option<Seq<char>>,
    pub expected_at: Option<Seq<char>>,
    pub customer_note: Option<Seq<char>>,
    pub merchant_note: Option<Seq<char>>,
    pub status: Seq<char>,
    pub created_at: Option<Seq<char>>,
    pub updated_at: Option<Seq<char>>,
}

impl View for RefundData {
    type V = RefundDataV;

    open spec fn view(&self) -> RefundDataV {
        RefundDataV {
            id: self.id,
            integration: self.integration,
            domain: self.domain.deep_view(),
            transaction: self.transaction.deep_view(),
            amount: self.amount,
            deducted_amount: self.deducted_amount,
            currency: self.currency@,
            channel: self.channel.deep_view(),
            fully_deducted: self.fully_deducted,
            refunded_by: self.refunded_by.deep_view(),
            refunded_at: self.refunded_at.deep_view(),
            expected_at: self.expected_at.deep_view(),
            customer_note: self.customer_note.deep_view(),
            merchant_note: self.merchant_note.deep_view(),
            status: self.status@,
            created_at: self.created_at.deep_view(),
            updated_at: self.updated_at.deep_view(),
        }
    }
}

pub open spec fn refund_data_jval(v: RefundDataV) -> JVal {
    JVal::Obj(seq![
        ("id"@, JVal::UInt(v.id)),
        ("integration"@, jnum_opt(v.integration)),
        ("domain"@, jstr_opt(v.domain)),
        ("transaction"@, jany_opt(v.transaction)),
        ("amount"@, JVal::UInt(v.amount)),
        ("deducted_amount"@, jnum_opt(v.deducted_amount)),
        ("currency"@, JVal::Str(v.currency)),
        ("channel"@, jstr_opt(v.channel)),
        ("fully_deducted"@, jbool_opt(v.fully_deducted)),
        ("refunded_by"@, jstr_opt(v.refunded_by)),
        ("refunded_at"@, jstr_opt(v.refunded_at)),
        ("expected_at"@, jstr_opt(v.expected_at)),
        ("customer_note"@, jstr_opt(v.customer_note)),
        ("merchant_note"@, jstr_opt(v.merchant_note)),
        ("status"@, JVal::Str(v.status)),
        ("created_at"@, jstr_opt(v.created_at)),
        ("updated_at"@, jstr_opt(v.updated_at)),
    ])
}

pub open spec fn refund_data_of(j: JVal) -> Option<RefundDataV> {
    match j {
        JVal::Obj(ps) => {
            let id = req_u64(ps, "id"@);
            let integration = opt_u64(ps, "integration"@);
            let domain = opt_str(ps, "domain"@);
            let transaction = opt_jval(ps, "transaction"@);
            let amount = req_u64(ps, "amount"@);
            let deducted_amount = opt_u64(ps, "deducted_amount"@);
            let currency = req_str(ps, "currency"@);
            let channel = opt_str(ps, "channel"@);
            let fully_deducted = opt_bool(ps, "fully_deducted"@);
            let refunded_by = opt_str(ps, "refunded_by"@);
            let refunded_at = opt_str(ps, "refunded_at"@);
            let expected_at = opt_str(ps, "expected_at"@);
            let customer_note = opt_str(ps, "customer_note"@);
            let merchant_note = opt_str(ps, "merchant_note"@);
            let status = req_str(ps, "status"@);
            let created_at = alias_opt_str(ps, "created_at"@, "createdAt"@);
            let updated_at = alias_opt_str(ps, "updated_at"@, "updatedAt"@);
            if id is Some && integration is Some && domain is Some && transaction is Some && amount is Some && deducted_amount is Some && currency is Some && channel is Some && fully_deducted is Some && refunded_by is Some && refunded_at is Some && expected_at is Some && customer_note is Some && merchant_note is Some && status is Some && created_at is Some && updated_at is Some {
                Some(RefundDataV {
                    id: id->0,
                    integration: integration->0,
                    domain: domain->0,
                    transaction: transaction->0,
                    amount: amount->0,
                    deducted_amount: deducted_amount->0,
                    currency: currency->0,
                    channel: channel->0,
                    fully_deducted: fully_deducted->0,
                    refunded_by: refunded_by->0,
                    refunded_at: refunded_at->0,
                    expected_at: expected_at->0,
                    customer_note: customer_note->0,
                    merchant_note: merchant_note->0,
                    status: status->0,
                    created_at: created_at->0,
                    updated_at: updated_at->0,
                })
            } else {
                None
            }
        },
        _ => None,
    }
}

impl RefundData {
    /// Builds the JSON value that the wire carries for this record.
    pub fn to_json(&self) -> (r: JsonValue)
        ensures
            r@ == refund_data_jval(self@),
    {
        let mut ps: Vec<(String, JsonValue)> = Vec::new();
        ps.push((String::from_str("id"), JsonValue::UInt(self.id)));
        ps.push((String::from_str("integration"), jv_num_opt(&self.integration)));
        ps.push((String::from_str("domain"), jv_str_opt(&self.domain)));
        ps.push((String::from_str("transaction"), jv_any_opt(&self.transaction)));
        ps.push((String::from_str("amount"), JsonValue::UInt(self.amount)));
        ps.push((String::from_str("deducted_amount"), jv_num_opt(&self.deducted_amount)));
        ps.push((String::from_str("currency"), JsonValue::Str(self.currency.clone())));
        ps.push((String::from_str("channel"), jv_str_opt(&self.channel)));
        ps.push((String::from_str("fully_deducted"), jv_bool_opt(&self.fully_deducted)));
        ps.push((String::from_str("refunded_by"), jv_str_opt(&self.refunded_by)));
        ps.push((String::from_str("refunded_at"), jv_str_opt(&self.refunded_at)));
        ps.push((String::from_str("expected_at"), jv_str_opt(&self.expected_at)));
        ps.push((String::from_str("customer_note"), jv_str_opt(&self.customer_note)));
        ps.push((String::from_str("merchant_note"), jv_str_opt(&self.merchant_note)));
        ps.push((String::from_str("status"), JsonValue::Str(self.status.clone())));
        ps.push((String::from_str("created_at"), jv_str_opt(&self.created_at)));
        ps.push((String::from_str("updated_at"), jv_str_opt(&self.updated_at)));
        proof {
            assert(jmembers_of(ps@) =~= refund_data_jval(self@)->Obj_0);
        }
        JsonValue::Obj(ps)
    }

    /// Reads a record from a JSON value, exactly as `refund_data_of` does.
    pub fn from_json(j: &JsonValue) -> (r: Option<RefundData>)
        ensures
            r matches Some(d) ==> refund_data_of(j@) == Some(d@),
            r is None <==> refund_data_of(j@) is None,
    {
        match j {
            JsonValue::Obj(ps) => {
                let id = match get_req_u64(ps, "id") {
                    Some(x) => x,
                    None => { return None; },
                };
                let integration = match get_opt_u64(ps, "integration") {
                    Some(x) => x,
                    None => { return None; },
                };
                let domain = match get_opt_string(ps, "domain") {
                    Some(x) => x,
                    None => { return None; },
                };
                let transaction = match get_opt_json(ps, "transaction") {
                    Some(x) => x,
                    None => { return None; },
                };
                let amount = match get_req_u64(ps, "amount") {
                    Some(x) => x,
                    None => { return None; },
                };
                let deducted_amount = match get_opt_u64(ps, "deducted_amount") {
                    Some(x) => x,
                    None => { return None; },
                };
                let currency = match get_req_string(ps, "currency") {
                    Some(x) => x,
                    None => { return None; },
                };
                let channel = match get_opt_string(ps, "channel") {
                    Some(x) => x,
                    None => { return None; },
                };
                let fully_deducted = match get_opt_bool(ps, "fully_deducted") {
                    Some(x) => x,
                    None => { return None; },
                };
                let refunded_by = match get_opt_string(ps, "refunded_by") {
                    Some(x) => x,
                    None => { return None; },
                };
                let refunded_at = match get_opt_string(ps, "refunded_at") {
                    Some(x) => x,
                    None => { return None; },
                };
                let expected_at = match get_opt_string(ps, "expected_at") {
                    Some(x) => x,
                    None => { return None; },
                };
                let customer_note = match get_opt_string(ps, "customer_note") {
                    Some(x) => x,
                    None => { return None; },
                };
                let merchant_note = match get_opt_string(ps, "merchant_note") {
                    Some(x) => x,
                    None => { return None; },
                };
                let status = match get_req_string(ps, "status") {
                    Some(x) => x,
                    None => { return None; },
                };
                let created_at = match get_alias_opt_string(ps, "created_at", "createdAt") {
                    Some(x) => x,
                    None => { return None; },
                };
                let updated_at = match get_alias_opt_string(ps, "updated_at", "updatedAt") {
                    Some(x) => x,
                    None => { return None; },
                };
                Some(RefundData {
                    id,
                    integration,
                    domain,
                    transaction,
                    amount,
                    deducted_amount,
                    currency,
                    channel,
                    fully_deducted,
                    refunded_by,
                    refunded_at,
                    expected_at,
                    customer_note,
                    merchant_note,
                    status,
                    created_at,
                    updated_at,
                })
            },
            _ => None,
        }
    }
}

/// Decoding the JSON of a record yields the record back: every
/// modeled field survives the round trip.
pub proof fn lemma_refund_data_round_trip(v: RefundDataV)
    requires
        !(v.transaction matches Some(t) && t is Null),
    ensures
        refund_data_of(refund_data_jval(v)) == Some(v),
{
    reveal_strlit("id");
    reveal_strlit("integration");
    reveal_strlit("domain");
    reveal_strlit("transaction");
    reveal_strlit("amount");
    reveal_strlit("deducted_amount");
    reveal_strlit("currency");
    reveal_strlit("channel");
    reveal_strlit("fully_deducted");
    reveal_strlit("refunded_by");
    reveal_strlit("refunded_at");
    reveal_strlit("expected_at");
    reveal_strlit("customer_note");
    reveal_strlit("merchant_note");
    reveal_strlit("status");
    reveal_strlit("created_at");
    reveal_strlit("updated_at");
    reveal_strlit("createdAt");
    reveal_strlit("updatedAt");
    assert("amount"@.len() == 6);
    assert("channel"@.len() == 7);
    assert("createdAt"@.len() == 9);
    assert("created_at"@.len() == 10);
    assert("currency"@.len() == 8);
    assert("customer_note"@.len() == 13);
    assert("deducted_amount"@.len() == 15);
    assert("domain"@.len() == 6);
    assert("expected_at"@.len() == 11);
    assert("fully_deducted"@.len() == 14);
    assert("id"@.len() == 2);
    assert("integration"@.len() == 11);
    assert("merchant_note"@.len() == 13);
    assert("refunded_at"@.len() == 11);
    assert("refunded_by"@.len() == 11);
    assert("status"@.len() == 6);
    assert("transaction"@.len() == 11);
    assert("updatedAt"@.len() == 9);
    assert("updated_at"@.len() == 10);
    assert("id"@ != "integration"@);
    assert("id"@ != "domain"@);
    assert("integration"@ != "domain"@);
    assert("id"@ != "transaction"@);
    assert("integration"@[0] == 'i');
    assert("transaction"@[0] == 't');
    assert("integration"@ != "transaction"@);
    assert("domain"@ != "transaction"@);
    assert("id"@ != "amount"@);
    assert("integration"@ != "amount"@);
    assert("domain"@[0] == 'd');
    assert("amount"@[0] == 'a');
    assert("domain"@ != "amount"@);
    assert("transaction"@ != "amount"@);
    assert("id"@ != "deducted_amount"@);
    assert("integration"@ != "deducted_amount"@);
    assert("domain"@ != "deducted_amount"@);
    assert("transaction"@ != "deducted_amount"@);
    assert("amount"@ != "deducted_amount"@);
    assert("id"@ != "currency"@);
    assert("integration"@ != "currency"@);
    assert("domain"@ != "currency"@);
    assert("transaction"@ != "currency"@);
    assert("amount"@ != "currency"@);
    assert("deducted_amount"@ != "currency"@);
    assert("id"@ != "channel"@);
    assert("integration"@ != "channel"@);
    assert("domain"@ != "channel"@);
    assert("transaction"@ != "channel"@);
    assert("amount"@ != "channel"@);
    assert("deducted_amount"@ != "channel"@);
    assert("currency"@ != "channel"@);
    assert("id"@ != "fully_deducted"@);
    assert("integration"@ != "fully_deducted"@);
    assert("domain"@ != "fully_deducted"@);
    assert("transaction"@ != "fully_deducted"@);
    assert("amount"@ != "fully_deducted"@);
    assert("deducted_amount"@ != "fully_deducted"@);
    assert("currency"@ != "fully_deducted"@);
    assert("channel"@ != "fully_deducted"@);
    assert("id"@ != "refunded_by"@);
    assert("integration"@[0] == 'i');
    assert("refunded_by"@[0] == 'r');
    assert("integration"@ != "refunded_by"@);
    assert("domain"@ != "refunded_by"@);
    assert("transaction"@[0] == 't');
    assert("refunded_by"@[0] == 'r');
    assert("transaction"@ != "refunded_by"@);
    assert("amount"@ != "refunded_by"@);
    assert("deducted_amount"@ != "refunded_by"@);
    assert("currency"@ != "refunded_by"@);
    assert("channel"@ != "refunded_by"@);
    assert("fully_deducted"@ != "refunded_by"@);
    assert("id"@ != "refunded_at"@);
    assert("integration"@[0] == 'i');
    assert("refunded_at"@[0] == 'r');
    assert("integration"@ != "refunded_at"@);
    assert("domain"@ != "refunded_at"@);
    assert("transaction"@[0] == 't');
    assert("refunded_at"@[0] == 'r');
    assert("transaction"@ != "refunded_at"@);
    assert("amount"@ != "refunded_at"@);
    assert("deducted_amount"@ != "refunded_at"@);
    assert("currency"@ != "refunded_at"@);
    assert("channel"@ != "refunded_at"@);
    assert("fully_deducted"@ != "refunded_at"@);
    assert("refunded_by"@[9] == 'b');
    assert("refunded_at"@[9] == 'a');
    assert("refunded_by"@ != "refunded_at"@);
    assert("id"@ != "expected_at"@);
    assert("integration"@[0] == 'i');
    assert("expected_at"@[0] == 'e');
    assert("integration"@ != "expected_at"@);
    assert("domain"@ != "expected_at"@);
    assert("transaction"@[0] == 't');
    assert("expected_at"@[0] == 'e');
    assert("transaction"@ != "expected_at"@);
    assert("amount"@ != "expected_at"@);
    assert("deducted_amount"@ != "expected_at"@);
    assert("currency"@ != "expected_at"@);
    assert("channel"@ != "expected_at"@);
    assert("fully_deducted"@ != "expected_at"@);
    assert("refunded_by"@[0] == 'r');
    assert("expected_at"@[0] == 'e');
    assert("refunded_by"@ != "expected_at"@);
    assert("refunded_at"@[0] == 'r');
    assert("expected_at"@[0] == 'e');
    assert("refunded_at"@ != "expected_at"@);
    assert("id"@ != "customer_note"@);
    assert("integration"@ != "customer_note"@);
    assert("domain"@ != "customer_note"@);
    assert("transaction"@ != "customer_note"@);
    assert("amount"@ != "customer_note"@);
    assert("deducted_amount"@ != "customer_note"@);
    assert("currency"@ != "customer_note"@);
    assert("channel"@ != "customer_note"@);
    assert("fully_deducted"@ != "customer_note"@);
    assert("refunded_by"@ != "customer_note"@);
    assert("refunded_at"@ != "customer_note"@);
    assert("expected_at"@ != "customer_note"@);
    assert("id"@ != "merchant_note"@);
    assert("integration"@ != "merchant_note"@);
    assert("domain"@ != "merchant_note"@);
    assert("transaction"@ != "merchant_note"@);
    assert("amount"@ != "merchant_note"@);
    assert("deducted_amount"@ != "merchant_note"@);
    assert("currency"@ != "merchant_note"@);
    assert("channel"@ != "merchant_note"@);
    assert("fully_deducted"@ != "merchant_note"@);
    assert("refunded_by"@ != "merchant_note"@);
    assert("refunded_at"@ != "merchant_note"@);
    assert("expected_at"@ != "merchant_note"@);
    assert("customer_note"@[0] == 'c');
    assert("merchant_note"@[0] == 'm');
    assert("customer_note"@ != "merchant_note"@);
    assert("id"@ != "status"@);
    assert("integration"@ != "status"@);
    assert("domain"@[0] == 'd');
    assert("status"@[0] == 's');
    assert("domain"@ != "status"@);
    assert("transaction"@ != "status"@);
    assert("amount"@[0] == 'a');
    assert("status"@[0] == 's');
    assert("amount"@ != "status"@);
    assert("deducted_amount"@ != "status"@);
    assert("currency"@ != "status"@);
    assert("channel"@ != "status"@);
    assert("fully_deducted"@ != "status"@);
    assert("refunded_by"@ != "status"@);
    assert("refunded_at"@ != "status"@);
    assert("expected_at"@ != "status"@);
    assert("customer_note"@ != "status"@);
    assert("merchant_note"@ != "status"@);
    assert("id"@ != "created_at"@);
    assert("integration"@ != "created_at"@);
    assert("domain"@ != "created_at"@);
    assert("transaction"@ != "created_at"@);
    assert("amount"@ != "created_at"@);
    assert("deducted_amount"@ != "created_at"@);
    assert("currency"@ != "created_at"@);
    assert("channel"@ != "created_at"@);
    assert("fully_deducted"@ != "created_at"@);
    assert("refunded_by"@ != "created_at"@);
    assert("refunded_at"@ != "created_at"@);
    assert("expected_at"@ != "created_at"@);
    assert("customer_note"@ != "created_at"@);
    assert("merchant_note"@ != "created_at"@);
    assert("status"@ != "created_at"@);
    assert("id"@ != "updated_at"@);
    assert("integration"@ != "updated_at"@);
    assert("domain"@ != "updated_at"@);
    assert("transaction"@ != "updated_at"@);
    assert("amount"@ != "updated_at"@);
    assert("deducted_amount"@ != "updated_at"@);
    assert("currency"@ != "updated_at"@);
    assert("channel"@ != "updated_at"@);
    assert("fully_deducted"@ != "updated_at"@);
    assert("refunded_by"@ != "updated_at"@);
    assert("refunded_at"@ != "updated_at"@);
    assert("expected_at"@ != "updated_at"@);
    assert("customer_note"@ != "updated_at"@);
    assert("merchant_note"@ != "updated_at"@);
    assert("status"@ != "updated_at"@);
    assert("created_at"@[0] == 'c');
    assert("updated_at"@[0] == 'u');
    assert("created_at"@ != "updated_at"@);
    let ps = refund_data_jval(v)->Obj_0;
    lemma_jlookup_at(ps, "id"@, 0);
    lemma_jlookup_at(ps, "integration"@, 1);
    lemma_jlookup_at(ps, "domain"@, 2);
    lemma_jlookup_at(ps, "transaction"@, 3);
    lemma_jlookup_at(ps, "amount"@, 4);
    lemma_jlookup_at(ps, "deducted_amount"@, 5);
    lemma_jlookup_at(ps, "currency"@, 6);
    lemma_jlookup_at(ps, "channel"@, 7);
    lemma_jlookup_at(ps, "fully_deducted"@, 8);
    lemma_jlookup_at(ps, "refunded_by"@, 9);
    lemma_jlookup_at(ps, "refunded_at"@, 10);
    lemma_jlookup_at(ps, "expected_at"@, 11);
    lemma_jlookup_at(ps, "customer_note"@, 12);
    lemma_jlookup_at(ps, "merchant_note"@, 13);
    lemma_jlookup_at(ps, "status"@, 14);
    lemma_jlookup_at(ps, "created_at"@, 15);
    lemma_jlookup_at(ps, "updated_at"@, 16);
    assert(refund_data_of(refund_data_jval(v)) == Some(v));
}

} // verus!
