//! Subscription request and response models.
//!
//! Request bodies are built through builders that default unset optional
//! fields to `None` and refuse to build while a required field is missing.
//! The subscription record decodes from a JSON value exactly as
//! `subscription_of` says, and encodes back without losing any modeled
//! field.

use vstd::prelude::*;

use crate::json::{
    alias_req_str, get_alias_req_string, get_opt_string, get_req_bool, get_req_string, get_req_u32,
    jstr_opt, jlookup, jmembers_of, jv_str_opt, lemma_jlookup_at, obj_lookup, opt_str, req_bool,
    req_str, req_u32, JVal, JsonValue,
};
use crate::BuilderError;

verus! {

/// Whether a record lives on the live or the test domain of an
/// integration.
#[derive(Debug, Clone, Copy, PartialEq, Eq, Structural)]
pub enum Domain {
    /// The live domain.
    Live,
    /// The test domain.
    Test,
}

/// The wire spelling of a domain.
pub open spec fn domain_str(d: Domain) -> Seq<char> {
    match d {
        Domain::Live => "live"@,
        Domain::Test => "test"@,
    }
}

/// The domain a wire string names, if any.
pub open spec fn domain_of_str(s: Seq<char>) -> Option<Domain> {
    if s == "live"@ {
        Some(Domain::Live)
    } else if s == "test"@ {
        Some(Domain::Test)
    } else {
        None
    }
}

impl Domain {
    /// The wire spelling of this domain.
    pub fn to_str(&self) -> (r: &'static str)
        ensures
            r@ == domain_str(*self),
    {
        match self {
            Domain::Live => "live",
            Domain::Test => "test",
        }
    }

    /// Reads a domain from its wire spelling.
    pub fn parse(s: &String) -> (r: Option<Domain>)
        ensures
            r == domain_of_str(s@),
    {
        if *s == String::from_str("live") {
            Some(Domain::Live)
        } else if *s == String::from_str("test") {
            Some(Domain::Test)
        } else {
            None
        }
    }
}

/// The status of a subscription; the wire spells it in lower case.
#[derive(Debug, Clone, Copy, PartialEq, Eq, Structural)]
#[non_exhaustive]
pub enum SubscriptionStatus {
    /// The subscription is complete.
    Complete,
}

/// The wire spelling of a subscription status.
pub open spec fn status_str(s: SubscriptionStatus) -> Seq<char> {
    match s {
        SubscriptionStatus::Complete => "complete"@,
    }
}

/// The status a wire string names, if any.
pub open spec fn status_of_str(s: Seq<char>) -> Option<SubscriptionStatus> {
    if s == "complete"@ {
        Some(SubscriptionStatus::Complete)
    } else {
        None
    }
}

impl SubscriptionStatus {
    /// The wire spelling of this status.
    pub fn to_str(&self) -> (r: &'static str)
        ensures
            r@ == status_str(*self),
    {
        match self {
            SubscriptionStatus::Complete => "complete",
        }
    }

    /// Reads a status from its wire spelling.
    pub fn parse(s: &String) -> (r: Option<SubscriptionStatus>)
        ensures
            r == status_of_str(s@),
    {
        if *s == String::from_str("complete") {
            Some(SubscriptionStatus::Complete)
        } else {
            None
        }
    }
}

/// The card authorization a subscription charges against.
#[derive(Debug, Clone)]
pub struct Authorization {
    /// The authorization code.
    pub authorization_code: String,
    /// The first six digits of the card.
    pub bin: String,
    /// The last four digits of the card.
    pub last4: String,
    /// The channel the authorization came through.
    pub channel: String,
    /// Whether the authorization can be charged again.
    pub reusable: bool,
    /// The signature of the card.
    pub signature: String,
}

/// The member named `name`, which must be a domain string.
pub open spec fn req_domain(ps: Seq<(Seq<char>, JVal)>, name: Seq<char>) -> Option<Domain> {
    match req_str(ps, name) {
        Some(s) => domain_of_str(s),
        None => None,
    }
}

/// Reads a required domain member.
pub fn get_req_domain(ps: &Vec<(String, JsonValue)>, name: &str) -> (r: Option<Domain>)
    ensures
        r == req_domain(jmembers_of(ps@), name@),
{
    match get_req_string(ps, name) {
        Some(s) => Domain::parse(&s),
        None => None,
    }
}

/// The member named `name`, which must be a status string.
pub open spec fn req_status(ps: Seq<(Seq<char>, JVal)>, name: Seq<char>) -> Option<
    SubscriptionStatus,
> {
    match req_str(ps, name) {
        Some(s) => status_of_str(s),
        None => None,
    }
}

/// Reads a required status member.
pub fn get_req_status(ps: &Vec<(String, JsonValue)>, name: &str) -> (r: Option<
    SubscriptionStatus,
>)
    ensures
        r == req_status(jmembers_of(ps@), name@),
{
    match get_req_string(ps, name) {
        Some(s) => SubscriptionStatus::parse(&s),
        None => None,
    }
}

/// The member named `name`, which must decode as an authorization.
pub open spec fn obj_authorization(ps: Seq<(Seq<char>, JVal)>, name: Seq<char>) -> Option<
    AuthorizationV,
> {
    match jlookup(ps, name) {
        Some(v) => authorization_of(v),
        None => None,
    }
}

/// Reads a required authorization member.
pub fn get_authorization(ps: &Vec<(String, JsonValue)>, name: &str) -> (r: Option<Authorization>)
    ensures
        r matches Some(a) ==> obj_authorization(jmembers_of(ps@), name@) == Some(a@),
        r is None <==> obj_authorization(jmembers_of(ps@), name@) is None,
{
    match obj_lookup(ps, name) {
        Some(v) => Authorization::from_json(v),
        None => None,
    }
}

/// A subscription of a customer to a plan, as the API returns it.
#[derive(Debug, Clone)]
pub struct Subscription {
    /// The customer id.
    pub customer: u32,
    /// The plan id.
    pub plan: u32,
    /// The integration id.
    pub integration: u32,
    /// The domain the subscription lives on.
    pub domain: Domain,
    /// The start timestamp.
    pub start: u32,
    /// The status of the subscription.
    pub status: SubscriptionStatus,
    /// How many units of the plan are subscribed.
    pub quantity: u32,
    /// The amount charged per period.
    pub amount: u32,
    /// The code of the subscription.
    pub subscription_code: String,
    /// The token used to manage the subscription by email.
    pub email_token: String,
    /// The card authorization charged.
    pub authorization: Authorization,
    /// The id of the scheduled charge, if one is set.
    pub easy_cron_id: Option<String>,
    /// The charge schedule, as a cron expression.
    pub cron_expression: String,
    /// When the next payment is due.
    pub next_payment_date: String,
    /// The open invoice, if one is open.
    pub open_invoice: Option<String>,
    /// The subscription id.
    pub id: u32,
    /// When the subscription was created; the wire spells it `createdAt`,
    /// and `created_at` is accepted too.
    pub created_at: String,
    /// When the subscription was last updated; the wire spells it
    /// `updatedAt`, and `updated_at` is accepted too.
    pub updated_at: String,
}

impl DeepView for Subscription {
    type V = SubscriptionV;

    open spec fn deep_view(&self) -> SubscriptionV {
        self.view()
    }
}

/// Request body for creating a subscription. Build with
/// `CreateSubscriptionRequestBuilder`; `plan` and `customer` are required.
#[derive(Debug, Clone)]
pub struct CreateSubscriptionRequest {
    /// Plan code for the subscription.
    pub plan: String,
    /// Customer's email address or code.
    pub customer: String,
    /// The authorization code to charge, if a particular one is meant.
    pub authorization: Option<String>,
    /// The start date of the subscription.
    pub start_date: Option<String>,
}

/// The mathematical model of a create-subscription request.
pub struct CreateSubscriptionRequestV {
    /// Plan code.
    pub plan: Seq<char>,
    /// Customer's email address or code.
    pub customer: Seq<char>,
    /// The authorization code, if one is meant.
    pub authorization: Option<Seq<char>>,
    /// The start date, if one is meant.
    pub start_date: Option<Seq<char>>,
}

impl View for CreateSubscriptionRequest {
    type V = CreateSubscriptionRequestV;

    open spec fn view(&self) -> CreateSubscriptionRequestV {
        CreateSubscriptionRequestV {
            plan: self.plan@,
            customer: self.customer@,
            authorization: self.authorization.deep_view(),
            start_date: self.start_date.deep_view(),
        }
    }
}

/// The JSON body that a create-subscription request serializes to: every
/// field in declaration order, unset optional fields as `null`.
pub open spec fn create_subscription_jval(v: CreateSubscriptionRequestV) -> JVal {
    JVal::Obj(
        seq![
            ("plan"@, JVal::Str(v.plan)),
            ("customer"@, JVal::Str(v.customer)),
            ("authorization"@, jstr_opt(v.authorization)),
            ("start_date"@, jstr_opt(v.start_date)),
        ],
    )
}

impl CreateSubscriptionRequest {
    /// Builds the JSON body that the wire carries for this request.
    pub fn to_json(&self) -> (r: JsonValue)
        ensures
            r@ == create_subscription_jval(self@),
    {
        let mut ps: Vec<(String, JsonValue)> = Vec::new();
        ps.push((String::from_str("plan"), JsonValue::Str(self.plan.clone())));
        ps.push((String::from_str("customer"), JsonValue::Str(self.customer.clone())));
        ps.push((String::from_str("authorization"), jv_str_opt(&self.authorization)));
        ps.push((String::from_str("start_date"), jv_str_opt(&self.start_date)));
        proof {
            assert(jmembers_of(ps@) =~= create_subscription_jval(self@)->Obj_0);
        }
        JsonValue::Obj(ps)
    }
}

/// Builder for `CreateSubscriptionRequest`: `plan` and `customer` are
/// required, the rest default to `None`.
#[derive(Debug, Clone)]
pub struct CreateSubscriptionRequestBuilder {
    /// The required plan code, once set.
    pub plan: Option<String>,
    /// The required customer, once set.
    pub customer: Option<String>,
    /// The authorization code, once set.
    pub authorization: Option<String>,
    /// The start date, once set.
    pub start_date: Option<String>,
}

impl Default for CreateSubscriptionRequestBuilder {
    /// An empty builder: nothing set.
    fn default() -> (r: Self)
        ensures
            r.plan is None,
            r.customer is None,
            r.authorization is None,
            r.start_date is None,
    {
        CreateSubscriptionRequestBuilder {
            plan: None,
            customer: None,
            authorization: None,
            start_date: None,
        }
    }
}

impl CreateSubscriptionRequestBuilder {
    /// Sets the required plan code.
    pub fn plan(self, plan: String) -> (r: Self)
        ensures
            r == (Self { plan: Some(plan), ..self }),
    {
        Self { plan: Some(plan), ..self }
    }

    /// Sets the required customer.
    pub fn customer(self, customer: String) -> (r: Self)
        ensures
            r == (Self { customer: Some(customer), ..self }),
    {
        Self { customer: Some(customer), ..self }
    }

    /// Sets the authorization code to charge.
    pub fn authorization(self, authorization: String) -> (r: Self)
        ensures
            r == (Self { authorization: Some(authorization), ..self }),
    {
        Self { authorization: Some(authorization), ..self }
    }

    /// Sets the start date.
    pub fn start_date(self, start_date: String) -> (r: Self)
        ensures
            r == (Self { start_date: Some(start_date), ..self }),
    {
        Self { start_date: Some(start_date), ..self }
    }

    /// Builds the request. Fails, before any network call could happen,
    /// exactly when a required field was never set, naming the first one
    /// missing.
    pub fn build(self) -> (r: Result<CreateSubscriptionRequest, BuilderError>)
        ensures
            r is Ok <==> (self.plan is Some && self.customer is Some),
            r matches Ok(t) ==> t == (CreateSubscriptionRequest {
                plan: self.plan->0,
                customer: self.customer->0,
                authorization: self.authorization,
                start_date: self.start_date,
            }),
            r matches Err(e) ==> (self.plan is None ==> e.field@ == "plan"@) && (
            self.plan is Some ==> e.field@ == "customer"@),
    {
        match self.plan {
            Some(plan) => match self.customer {
                Some(customer) => Ok(
                    CreateSubscriptionRequest {
                        plan,
                        customer,
                        authorization: self.authorization,
                        start_date: self.start_date,
                    },
                ),
                None => Err(BuilderError { field: String::from_str("customer") }),
            },
            None => Err(BuilderError { field: String::from_str("plan") }),
        }
    }
}

/// The optional filters of a subscription list request. Build with
/// `FetchSubscriptionRequestBuilder`; every field is optional.
#[derive(Debug, Clone)]
pub struct FetchSubscriptionRequest {
    /// The page to fetch.
    pub page: Option<u32>,
    /// How many records to fetch per page.
    pub per_page: Option<u32>,
    /// A customer id to filter by.
    pub customer: Option<u32>,
    /// A plan code to filter by.
    pub plan: Option<String>,
}

/// Builder for `FetchSubscriptionRequest`: every field is optional and
/// defaults to `None`, so building never fails.
#[derive(Debug, Clone)]
pub struct FetchSubscriptionRequestBuilder {
    /// The page, once set.
    pub page: Option<u32>,
    /// The page size, once set.
    pub per_page: Option<u32>,
    /// The customer filter, once set.
    pub customer: Option<u32>,
    /// The plan filter, once set.
    pub plan: Option<String>,
}

impl Default for FetchSubscriptionRequestBuilder {
    /// An empty builder: nothing set.
    fn default() -> (r: Self)
        ensures
            r.page is None,
            r.per_page is None,
            r.customer is None,
            r.plan is None,
    {
        FetchSubscriptionRequestBuilder { page: None, per_page: None, customer: None, plan: None }
    }
}

impl FetchSubscriptionRequestBuilder {
    /// Sets the page to fetch.
    pub fn page(self, page: u32) -> (r: Self)
        ensures
            r == (Self { page: Some(page), ..self }),
    {
        Self { page: Some(page), ..self }
    }

    /// Sets the page size.
    pub fn per_page(self, per_page: u32) -> (r: Self)
        ensures
            r == (Self { per_page: Some(per_page), ..self }),
    {
        Self { per_page: Some(per_page), ..self }
    }

    /// Sets the customer filter.
    pub fn customer(self, customer: u32) -> (r: Self)
        ensures
            r == (Self { customer: Some(customer), ..self }),
    {
        Self { customer: Some(customer), ..self }
    }

    /// Sets the plan filter.
    pub fn plan(self, plan: String) -> (r: Self)
        ensures
            r == (Self { plan: Some(plan), ..self }),
    {
        Self { plan: Some(plan), ..self }
    }

    /// Builds the request; every field is optional, so this always
    /// succeeds.
    pub fn build(self) -> (r: Result<FetchSubscriptionRequest, BuilderError>)
        ensures
            r matches Ok(t) && t == (FetchSubscriptionRequest {
                page: self.page,
                per_page: self.per_page,
                customer: self.customer,
                plan: self.plan,
            }),
    {
        Ok(
            FetchSubscriptionRequest {
                page: self.page,
                per_page: self.per_page,
                customer: self.customer,
                plan: self.plan,
            },
        )
    }
}

/// Request body for enabling or disabling a subscription. Build with
/// `UpdateSubscriptionRequestBuilder`; both fields are required.
#[derive(Debug, Clone)]
pub struct UpdateSubscriptionRequest {
    /// The email token of the subscription.
    pub token: String,
    /// The code of the subscription.
    pub code: String,
}

/// The mathematical model of an update-subscription request.
pub struct UpdateSubscriptionRequestV {
    /// The email token.
    pub token: Seq<char>,
    /// The subscription code.
    pub code: Seq<char>,
}

impl View for UpdateSubscriptionRequest {
    type V = UpdateSubscriptionRequestV;

    open spec fn view(&self) -> UpdateSubscriptionRequestV {
        UpdateSubscriptionRequestV { token: self.token@, code: self.code@ }
    }
}

/// The JSON body that enabling or disabling a subscription sends: the code
/// and the token, in that order.
pub open spec fn update_subscription_jval(v: UpdateSubscriptionRequestV) -> JVal {
    JVal::Obj(seq![("code"@, JVal::Str(v.code)), ("token"@, JVal::Str(v.token))])
}

impl UpdateSubscriptionRequest {
    /// Builds the JSON body that the wire carries for this request.
    pub fn to_json(&self) -> (r: JsonValue)
        ensures
            r@ == update_subscription_jval(self@),
    {
        let mut ps: Vec<(String, JsonValue)> = Vec::new();
        ps.push((String::from_str("code"), JsonValue::Str(self.code.clone())));
        ps.push((String::from_str("token"), JsonValue::Str(self.token.clone())));
        proof {
            assert(jmembers_of(ps@) =~= update_subscription_jval(self@)->Obj_0);
        }
        JsonValue::Obj(ps)
    }
}

/// Builder for `UpdateSubscriptionRequest`: both fields are required.
#[derive(Debug, Clone)]
pub struct UpdateSubscriptionRequestBuilder {
    /// The required email token, once set.
    pub token: Option<String>,
    /// The required subscription code, once set.
    pub code: Option<String>,
}

impl Default for UpdateSubscriptionRequestBuilder {
    /// An empty builder: nothing set.
    fn default() -> (r: Self)
        ensures
            r.token is None,
            r.code is None,
    {
        UpdateSubscriptionRequestBuilder { token: None, code: None }
    }
}

impl UpdateSubscriptionRequestBuilder {
    /// Sets the required email token.
    pub fn token(self, token: String) -> (r: Self)
        ensures
            r == (Self { token: Some(token), ..self }),
    {
        Self { token: Some(token), ..self }
    }

    /// Sets the required subscription code.
    pub fn code(self, code: String) -> (r: Self)
        ensures
            r == (Self { code: Some(code), ..self }),
    {
        Self { code: Some(code), ..self }
    }

    /// Builds the request. Fails, before any network call could happen,
    /// exactly when a required field was never set, naming the first one
    /// missing.
    pub fn build(self) -> (r: Result<UpdateSubscriptionRequest, BuilderError>)
        ensures
            r is Ok <==> (self.token is Some && self.code is Some),
            r matches Ok(t) ==> t == (UpdateSubscriptionRequest {
                token: self.token->0,
                code: self.code->0,
            }),
            r matches Err(e) ==> (self.token is None ==> e.field@ == "token"@) && (
            self.token is Some ==> e.field@ == "code"@),
    {
        match self.token {
            Some(token) => match self.code {
                Some(code) => Ok(UpdateSubscriptionRequest { token, code }),
                None => Err(BuilderError { field: String::from_str("code") }),
            },
            None => Err(BuilderError { field: String::from_str("token") }),
        }
    }
}

/// The mathematical model of a card authorization.
pub struct AuthorizationV {
    pub authorization_code: Seq<char>,
    pub bin: Seq<char>,
    pub last4: Seq<char>,
    pub channel: Seq<char>,
    pub reusable: bool,
    pub signature: Seq<char>,
}

impl View for Authorization {
    type V = AuthorizationV;

    open spec fn view(&self) -> AuthorizationV {
        AuthorizationV {
            authorization_code: self.authorization_code@,
            bin: self.bin@,
            last4: self.last4@,
            channel: self.channel@,
            reusable: self.reusable,
            signature: self.signature@,
        }
    }
}

pub open spec fn authorization_jval(v: AuthorizationV) -> JVal {
    JVal::Obj(seq![
        ("authorization_code"@, JVal::Str(v.authorization_code)),
        ("bin"@, JVal::Str(v.bin)),
        ("last4"@, JVal::Str(v.last4)),
        ("channel"@, JVal::Str(v.channel)),
        ("reusable"@, JVal::Bool(v.reusable)),
        ("signature"@, JVal::Str(v.signature)),
    ])
}

pub open spec fn authorization_of(j: JVal) -> Option<AuthorizationV> {
    match j {
        JVal::Obj(ps) => {
            let authorization_code = req_str(ps, "authorization_code"@);
            let bin = req_str(ps, "bin"@);
            let last4 = req_str(ps, "last4"@);
            let channel = req_str(ps, "channel"@);
            let reusable = req_bool(ps, "reusable"@);
            let signature = req_str(ps, "signature"@);
            if authorization_code is Some && bin is Some && last4 is Some && channel is Some && reusable is Some && signature is Some {
                Some(AuthorizationV {
                    authorization_code: authorization_code->0,
                    bin: bin->0,
                    last4: last4->0,
                    channel: channel->0,
                    reusable: reusable->0,
                    signature: signature->0,
                })
            } else {
                None
            }
        },
        _ => None,
    }
}

impl Authorization {
    /// Builds the JSON value that the wire carries for this record.
    pub fn to_json(&self) -> (r: JsonValue)
        ensures
            r@ == authorization_jval(self@),
    {
        let mut ps: Vec<(String, JsonValue)> = Vec::new();
        ps.push((String::from_str("authorization_code"), JsonValue::Str(self.authorization_code.clone())));
        ps.push((String::from_str("bin"), JsonValue::Str(self.bin.clone())));
        ps.push((String::from_str("last4"), JsonValue::Str(self.last4.clone())));
        ps.push((String::from_str("channel"), JsonValue::Str(self.channel.clone())));
        ps.push((String::from_str("reusable"), JsonValue::Bool(self.reusable)));
        ps.push((String::from_str("signature"), JsonValue::Str(self.signature.clone())));
        proof {
            assert(jmembers_of(ps@) =~= authorization_jval(self@)->Obj_0);
        }
        JsonValue::Obj(ps)
    }

    /// Reads a record from a JSON value, exactly as `authorization_of` does.
    pub fn from_json(j: &JsonValue) -> (r: Option<Authorization>)
        ensures
            r matches Some(d) ==> authorization_of(j@) == Some(d@),
            r is None <==> authorization_of(j@) is None,
    {
        match j {
            JsonValue::Obj(ps) => {
                let authorization_code = match get_req_string(ps, "authorization_code") {
                    Some(x) => x,
                    None => { return None; },
                };
                let bin = match get_req_string(ps, "bin") {
                    Some(x) => x,
                    None => { return None; },
                };
                let last4 = match get_req_string(ps, "last4") {
                    Some(x) => x,
                    None => { return None; },
                };
                let channel = match get_req_string(ps, "channel") {
                    Some(x) => x,
                    None => { return None; },
                };
                let reusable = match get_req_bool(ps, "reusable") {
                    Some(x) => x,
                    None => { return None; },
                };
                let signature = match get_req_string(ps, "signature") {
                    Some(x) => x,
                    None => { return None; },
                };
                Some(Authorization {
                    authorization_code,
                    bin,
                    last4,
                    channel,
                    reusable,
                    signature,
                })
            },
            _ => None,
        }
    }
}

/// Decoding the JSON of a record yields the record back: every
/// modeled field survives the round trip.
pub proof fn lemma_authorization_round_trip(v: AuthorizationV)
    ensures
        authorization_of(authorization_jval(v)) == Some(v),
{
    reveal_strlit("authorization_code");
    reveal_strlit("bin");
    reveal_strlit("last4");
    reveal_strlit("channel");
    reveal_strlit("reusable");
    reveal_strlit("signature");
    assert("authorization_code"@.len() == 18);
    assert("bin"@.len() == 3);
    assert("channel"@.len() == 7);
    assert("last4"@.len() == 5);
    assert("reusable"@.len() == 8);
    assert("signature"@.len() == 9);
    assert("authorization_code"@ != "bin"@);
    assert("authorization_code"@ != "last4"@);
    assert("bin"@ != "last4"@);
    assert("authorization_code"@ != "channel"@);
    assert("bin"@ != "channel"@);
    assert("last4"@ != "channel"@);
    assert("authorization_code"@ != "reusable"@);
    assert("bin"@ != "reusable"@);
    assert("last4"@ != "reusable"@);
    assert("channel"@ != "reusable"@);
    assert("authorization_code"@ != "signature"@);
    assert("bin"@ != "signature"@);
    assert("last4"@ != "signature"@);
    assert("channel"@ != "signature"@);
    assert("reusable"@ != "signature"@);
    let ps = authorization_jval(v)->Obj_0;
    lemma_jlookup_at(ps, "authorization_code"@, 0);
    lemma_jlookup_at(ps, "bin"@, 1);
    lemma_jlookup_at(ps, "last4"@, 2);
    lemma_jlookup_at(ps, "channel"@, 3);
    lemma_jlookup_at(ps, "reusable"@, 4);
    lemma_jlookup_at(ps, "signature"@, 5);
    assert(authorization_of(authorization_jval(v)) == Some(v));
}

/// The mathematical model of a subscription record.
pub struct SubscriptionV {
    pub customer: u32,
    pub plan: u32,
    pub integration: u32,
    pub domain: Domain,
    pub start: u32,
    pub status: SubscriptionStatus,
    pub quantity: u32,
    pub amount: u32,
    pub subscription_code: Seq<char>,
    pub email_token: Seq<char>,
    pub authorization: AuthorizationV,
    pub easy_cron_id: Option<Seq<char>>,
    pub cron_expression: Seq<char>,
    pub next_payment_date: Seq<char>,
    pub open_invoice: Option<Seq<char>>,
    pub id: u32,
    pub created_at: Seq<char>,
    pub updated_at: Seq<char>,
}

impl View for Subscription {
    type V = SubscriptionV;

    open spec fn view(&self) -> SubscriptionV {
        SubscriptionV {
            customer: self.customer,
            plan: self.plan,
            integration: self.integration,
            domain: self.domain,
            start: self.start,
            status: self.status,
            quantity: self.quantity,
            amount: self.amount,
            subscription_code: self.subscription_code@,
            email_token: self.email_token@,
            authorization: self.authorization@,
            easy_cron_id: self.easy_cron_id.deep_view(),
            cron_expression: self.cron_expression@,
            next_payment_date: self.next_payment_date@,
            open_invoice: self.open_invoice.deep_view(),
            id: self.id,
            created_at: self.created_at@,
            updated_at: self.updated_at@,
        }
    }
}

pub open spec fn subscription_jval(v: SubscriptionV) -> JVal {
    JVal::Obj(seq![
        ("customer"@, JVal::UInt(v.customer as u64)),
        ("plan"@, JVal::UInt(v.plan as u64)),
        ("integration"@, JVal::UInt(v.integration as u64)),
        ("domain"@, JVal::Str(domain_str(v.domain))),
        ("start"@, JVal::UInt(v.start as u64)),
        ("status"@, JVal::Str(status_str(v.status))),
        ("quantity"@, JVal::UInt(v.quantity as u64)),
        ("amount"@, JVal::UInt(v.amount as u64)),
        ("subscription_code"@, JVal::Str(v.subscription_code)),
        ("email_token"@, JVal::Str(v.email_token)),
        ("authorization"@, authorization_jval(v.authorization)),
        ("easy_cron_id"@, jstr_opt(v.easy_cron_id)),
        ("cron_expression"@, JVal::Str(v.cron_expression)),
        ("next_payment_date"@, JVal::Str(v.next_payment_date)),
        ("open_invoice"@, jstr_opt(v.open_invoice)),
        ("id"@, JVal::UInt(v.id as u64)),
        ("createdAt"@, JVal::Str(v.created_at)),
        ("updatedAt"@, JVal::Str(v.updated_at)),
    ])
}

pub open spec fn subscription_of(j: JVal) -> Option<SubscriptionV> {
    match j {
        JVal::Obj(ps) => {
            let customer = req_u32(ps, "customer"@);
            let plan = req_u32(ps, "plan"@);
            let integration = req_u32(ps, "integration"@);
            let domain = req_domain(ps, "domain"@);
            let start = req_u32(ps, "start"@);
            let status = req_status(ps, "status"@);
            let quantity = req_u32(ps, "quantity"@);
            let amount = req_u32(ps, "amount"@);
            let subscription_code = req_str(ps, "subscription_code"@);
            let email_token = req_str(ps, "email_token"@);
            let authorization = obj_authorization(ps, "authorization"@);
            let easy_cron_id = opt_str(ps, "easy_cron_id"@);
            let cron_expression = req_str(ps, "cron_expression"@);
            let next_payment_date = req_str(ps, "next_payment_date"@);
            let open_invoice = opt_str(ps, "open_invoice"@);
            let id = req_u32(ps, "id"@);
            let created_at = alias_req_str(ps, "createdAt"@, "created_at"@);
            let updated_at = alias_req_str(ps, "updatedAt"@, "updated_at"@);
            if customer is Some && plan is Some && integration is Some && domain is Some && start is Some && status is Some && quantity is Some && amount is Some && subscription_code is Some && email_token is Some && authorization is Some && easy_cron_id is Some && cron_expression is Some && next_payment_date is Some && open_invoice is Some && id is Some && created_at is Some && updated_at is Some {
                Some(SubscriptionV {
                    customer: customer->0,
                    plan: plan->0,
                    integration: integration->0,
                    domain: domain->0,
                    start: start->0,
                    status: status->0,
                    quantity: quantity->0,
                    amount: amount->0,
                    subscription_code: subscription_code->0,
                    email_token: email_token->0,
                    authorization: authorization->0,
                    easy_cron_id: easy_cron_id->0,
                    cron_expression: cron_expression->0,
                    next_payment_date: next_payment_date->0,
                    open_invoice: open_invoice->0,
                    id: id->0,
                    created_at: created_at->0,
                    updated_at: updated_at->0,
                })
            } else {
                None
            }
        },
        _ => None,
    }
}

impl Subscription {
    /// Builds the JSON value that the wire carries for this record.
    pub fn to_json(&self) -> (r: JsonValue)
        ensures
            r@ == subscription_jval(self@),
    {
        let mut ps: Vec<(String, JsonValue)> = Vec::new();
        ps.push((String::from_str("customer"), JsonValue::UInt(self.customer as u64)));
        ps.push((String::from_str("plan"), JsonValue::UInt(self.plan as u64)));
        ps.push((String::from_str("integration"), JsonValue::UInt(self.integration as u64)));
        ps.push((String::from_str("domain"), JsonValue::Str(self.domain.to_str().to_owned())));
        ps.push((String::from_str("start"), JsonValue::UInt(self.start as u64)));
        ps.push((String::from_str("status"), JsonValue::Str(self.status.to_str().to_owned())));
        ps.push((String::from_str("quantity"), JsonValue::UInt(self.quantity as u64)));
        ps.push((String::from_str("amount"), JsonValue::UInt(self.amount as u64)));
        ps.push((String::from_str("subscription_code"), JsonValue::Str(self.subscription_code.clone())));
        ps.push((String::from_str("email_token"), JsonValue::Str(self.email_token.clone())));
        ps.push((String::from_str("authorization"), self.authorization.to_json()));
        ps.push((String::from_str("easy_cron_id"), jv_str_opt(&self.easy_cron_id)));
        ps.push((String::from_str("cron_expression"), JsonValue::Str(self.cron_expression.clone())));
        ps.push((String::from_str("next_payment_date"), JsonValue::Str(self.next_payment_date.clone())));
        ps.push((String::from_str("open_invoice"), jv_str_opt(&self.open_invoice)));
        ps.push((String::from_str("id"), JsonValue::UInt(self.id as u64)));
        ps.push((String::from_str("createdAt"), JsonValue::Str(self.created_at.clone())));
        ps.push((String::from_str("updatedAt"), JsonValue::Str(self.updated_at.clone())));
        proof {
            assert(jmembers_of(ps@) =~= subscription_jval(self@)->Obj_0);
        }
        JsonValue::Obj(ps)
    }

    /// Reads a record from a JSON value, exactly as `subscription_of` does.
    pub fn from_json(j: &JsonValue) -> (r: Option<Subscription>)
        ensures
            r matches Some(d) ==> subscription_of(j@) == Some(d@),
            r is None <==> subscription_of(j@) is None,
    {
        match j {
            JsonValue::Obj(ps) => {
                let customer = match get_req_u32(ps, "customer") {
                    Some(x) => x,
                    None => { return None; },
                };
                let plan = match get_req_u32(ps, "plan") {
                    Some(x) => x,
                    None => { return None; },
                };
                let integration = match get_req_u32(ps, "integration") {
                    Some(x) => x,
                    None => { return None; },
                };
                let domain = match get_req_domain(ps, "domain") {
                    Some(x) => x,
                    None => { return None; },
                };
                let start = match get_req_u32(ps, "start") {
                    Some(x) => x,
                    None => { return None; },
                };
                let status = match get_req_status(ps, "status") {
                    Some(x) => x,
                    None => { return None; },
                };
                let quantity = match get_req_u32(ps, "quantity") {
                    Some(x) => x,
                    None => { return None; },
                };
                let amount = match get_req_u32(ps, "amount") {
                    Some(x) => x,
                    None => { return None; },
                };
                let subscription_code = match get_req_string(ps, "subscription_code") {
                    Some(x) => x,
                    None => { return None; },
                };
                let email_token = match get_req_string(ps, "email_token") {
                    Some(x) => x,
                    None => { return None; },
                };
                let authorization = match get_authorization(ps, "authorization") {
                    Some(x) => x,
                    None => { return None; },
                };
                let easy_cron_id = match get_opt_string(ps, "easy_cron_id") {
                    Some(x) => x,
                    None => { return None; },
                };
                let cron_expression = match get_req_string(ps, "cron_expression") {
                    Some(x) => x,
                    None => { return None; },
                };
                let next_payment_date = match get_req_string(ps, "next_payment_date") {
                    Some(x) => x,
                    None => { return None; },
                };
                let open_invoice = match get_opt_string(ps, "open_invoice") {
                    Some(x) => x,
                    None => { return None; },
                };
                let id = match get_req_u32(ps, "id") {
                    Some(x) => x,
                    None => { return None; },
                };
                let created_at = match get_alias_req_string(ps, "createdAt", "created_at") {
                    Some(x) => x,
                    None => { return None; },
                };
                let updated_at = match get_alias_req_string(ps, "updatedAt", "updated_at") {
                    Some(x) => x,
                    None => { return None; },
                };
                Some(Subscription {
                    customer,
                    plan,
                    integration,
                    domain,
                    start,
                    status,
                    quantity,
                    amount,
                    subscription_code,
                    email_token,
                    authorization,
                    easy_cron_id,
                    cron_expression,
                    next_payment_date,
                    open_invoice,
                    id,
                    created_at,
                    updated_at,
                })
            },
            _ => None,
        }
    }
}

/// Decoding the JSON of a record yields the record back: every
/// modeled field survives the round trip.
pub proof fn lemma_subscription_round_trip(v: SubscriptionV)
    requires
    ensures
        subscription_of(subscription_jval(v)) == Some(v),
{
    reveal_strlit("customer");
    reveal_strlit("plan");
    reveal_strlit("integration");
    reveal_strlit("domain");
    reveal_strlit("start");
    reveal_strlit("status");
    reveal_strlit("quantity");
    reveal_strlit("amount");
    reveal_strlit("subscription_code");
    reveal_strlit("email_token");
    reveal_strlit("authorization");
    reveal_strlit("easy_cron_id");
    reveal_strlit("cron_expression");
    reveal_strlit("next_payment_date");
    reveal_strlit("open_invoice");
    reveal_strlit("id");
    reveal_strlit("createdAt");
    reveal_strlit("updatedAt");
    assert("amount"@.len() == 6);
    assert("authorization"@.len() == 13);
    assert("createdAt"@.len() == 9);
    assert("cron_expression"@.len() == 15);
    assert("customer"@.len() == 8);
    assert("domain"@.len() == 6);
    assert("easy_cron_id"@.len() == 12);
    assert("email_token"@.len() == 11);
    assert("id"@.len() == 2);
    assert("integration"@.len() == 11);
    assert("next_payment_date"@.len() == 17);
    assert("open_invoice"@.len() == 12);
    assert("plan"@.len() == 4);
    assert("quantity"@.len() == 8);
    assert("start"@.len() == 5);
    assert("status"@.len() == 6);
    assert("subscription_code"@.len() == 17);
    assert("updatedAt"@.len() == 9);
    assert("customer"@ != "plan"@);
    assert("customer"@ != "integration"@);
    assert("plan"@ != "integration"@);
    assert("customer"@ != "domain"@);
    assert("plan"@ != "domain"@);
    assert("integration"@ != "domain"@);
    assert("customer"@ != "start"@);
    assert("plan"@ != "start"@);
    assert("integration"@ != "start"@);
    assert("domain"@ != "start"@);
    assert("customer"@ != "status"@);
    assert("plan"@ != "status"@);
    assert("integration"@ != "status"@);
    assert("domain"@[0] == 'd');
    assert("status"@[0] == 's');
    assert("domain"@ != "status"@);
    assert("start"@ != "status"@);
    assert("customer"@[0] == 'c');
    assert("quantity"@[0] == 'q');
    assert("customer"@ != "quantity"@);
    assert("plan"@ != "quantity"@);
    assert("integration"@ != "quantity"@);
    assert("domain"@ != "quantity"@);
    assert("start"@ != "quantity"@);
    assert("status"@ != "quantity"@);
    assert("customer"@ != "amount"@);
    assert("plan"@ != "amount"@);
    assert("integration"@ != "amount"@);
    assert("domain"@[0] == 'd');
    assert("amount"@[0] == 'a');
    assert("domain"@ != "amount"@);
    assert("start"@ != "amount"@);
    assert("status"@[0] == 's');
    assert("amount"@[0] == 'a');
    assert("status"@ != "amount"@);
    assert("quantity"@ != "amount"@);
    assert("customer"@ != "subscription_code"@);
    assert("plan"@ != "subscription_code"@);
    assert("integration"@ != "subscription_code"@);
    assert("domain"@ != "subscription_code"@);
    assert("start"@ != "subscription_code"@);
    assert("status"@ != "subscription_code"@);
    assert("quantity"@ != "subscription_code"@);
    assert("amount"@ != "subscription_code"@);
    assert("customer"@ != "email_token"@);
    assert("plan"@ != "email_token"@);
    assert("integration"@[0] == 'i');
    assert("email_token"@[0] == 'e');
    assert("integration"@ != "email_token"@);
    assert("domain"@ != "email_token"@);
    assert("start"@ != "email_token"@);
    assert("status"@ != "email_token"@);
    assert("quantity"@ != "email_token"@);
    assert("amount"@ != "email_token"@);
    assert("subscription_code"@ != "email_token"@);
    assert("customer"@ != "authorization"@);
    assert("plan"@ != "authorization"@);
    assert("integration"@ != "authorization"@);
    assert("domain"@ != "authorization"@);
    assert("start"@ != "authorization"@);
    assert("status"@ != "authorization"@);
    assert("quantity"@ != "authorization"@);
    assert("amount"@ != "authorization"@);
    assert("subscription_code"@ != "authorization"@);
    assert("email_token"@ != "authorization"@);
    assert("customer"@ != "easy_cron_id"@);
    assert("plan"@ != "easy_cron_id"@);
    assert("integration"@ != "easy_cron_id"@);
    assert("domain"@ != "easy_cron_id"@);
    assert("start"@ != "easy_cron_id"@);
    assert("status"@ != "easy_cron_id"@);
    assert("quantity"@ != "easy_cron_id"@);
    assert("amount"@ != "easy_cron_id"@);
    assert("subscription_code"@ != "easy_cron_id"@);
    assert("email_token"@ != "easy_cron_id"@);
    assert("authorization"@ != "easy_cron_id"@);
    assert("customer"@ != "cron_expression"@);
    assert("plan"@ != "cron_expression"@);
    assert("integration"@ != "cron_expression"@);
    assert("domain"@ != "cron_expression"@);
    assert("start"@ != "cron_expression"@);
    assert("status"@ != "cron_expression"@);
    assert("quantity"@ != "cron_expression"@);
    assert("amount"@ != "cron_expression"@);
    assert("subscription_code"@ != "cron_expression"@);
    assert("email_token"@ != "cron_expression"@);
    assert("authorization"@ != "cron_expression"@);
    assert("easy_cron_id"@ != "cron_expression"@);
    assert("customer"@ != "next_payment_date"@);
    assert("plan"@ != "next_payment_date"@);
    assert("integration"@ != "next_payment_date"@);
    assert("domain"@ != "next_payment_date"@);
    assert("start"@ != "next_payment_date"@);
    assert("status"@ != "next_payment_date"@);
    assert("quantity"@ != "next_payment_date"@);
    assert("amount"@ != "next_payment_date"@);
    assert("subscription_code"@[0] == 's');
    assert("next_payment_date"@[0] == 'n');
    assert("subscription_code"@ != "next_payment_date"@);
    assert("email_token"@ != "next_payment_date"@);
    assert("authorization"@ != "next_payment_date"@);
    assert("easy_cron_id"@ != "next_payment_date"@);
    assert("cron_expression"@ != "next_payment_date"@);
    assert("customer"@ != "open_invoice"@);
    assert("plan"@ != "open_invoice"@);
    assert("integration"@ != "open_invoice"@);
    assert("domain"@ != "open_invoice"@);
    assert("start"@ != "open_invoice"@);
    assert("status"@ != "open_invoice"@);
    assert("quantity"@ != "open_invoice"@);
    assert("amount"@ != "open_invoice"@);
    assert("subscription_code"@ != "open_invoice"@);
    assert("email_token"@ != "open_invoice"@);
    assert("authorization"@ != "open_invoice"@);
    assert("easy_cron_id"@[0] == 'e');
    assert("open_invoice"@[0] == 'o');
    assert("easy_cron_id"@ != "open_invoice"@);
    assert("cron_expression"@ != "open_invoice"@);
    assert("next_payment_date"@ != "open_invoice"@);
    assert("customer"@ != "id"@);
    assert("plan"@ != "id"@);
    assert("integration"@ != "id"@);
    assert("domain"@ != "id"@);
    assert("start"@ != "id"@);
    assert("status"@ != "id"@);
    assert("quantity"@ != "id"@);
    assert("amount"@ != "id"@);
    assert("subscription_code"@ != "id"@);
    assert("email_token"@ != "id"@);
    assert("authorization"@ != "id"@);
    assert("easy_cron_id"@ != "id"@);
    assert("cron_expression"@ != "id"@);
    assert("next_payment_date"@ != "id"@);
    assert("open_invoice"@ != "id"@);
    assert("customer"@ != "createdAt"@);
    assert("plan"@ != "createdAt"@);
    assert("integration"@ != "createdAt"@);
    assert("domain"@ != "createdAt"@);
    assert("start"@ != "createdAt"@);
    assert("status"@ != "createdAt"@);
    assert("quantity"@ != "createdAt"@);
    assert("amount"@ != "createdAt"@);
    assert("subscription_code"@ != "createdAt"@);
    assert("email_token"@ != "createdAt"@);
    assert("authorization"@ != "createdAt"@);
    assert("easy_cron_id"@ != "createdAt"@);
    assert("cron_expression"@ != "createdAt"@);
    assert("next_payment_date"@ != "createdAt"@);
    assert("open_invoice"@ != "createdAt"@);
    assert("id"@ != "createdAt"@);
    assert("customer"@ != "updatedAt"@);
    assert("plan"@ != "updatedAt"@);
    assert("integration"@ != "updatedAt"@);
    assert("domain"@ != "updatedAt"@);
    assert("start"@ != "updatedAt"@);
    assert("status"@ != "updatedAt"@);
    assert("quantity"@ != "updatedAt"@);
    assert("amount"@ != "updatedAt"@);
    assert("subscription_code"@ != "updatedAt"@);
    assert("email_token"@ != "updatedAt"@);
    assert("authorization"@ != "updatedAt"@);
    assert("easy_cron_id"@ != "updatedAt"@);
    assert("cron_expression"@ != "updatedAt"@);
    assert("next_payment_date"@ != "updatedAt"@);
    assert("open_invoice"@ != "updatedAt"@);
    assert("id"@ != "updatedAt"@);
    assert("createdAt"@[0] == 'c');
    assert("updatedAt"@[0] == 'u');
    assert("createdAt"@ != "updatedAt"@);
    reveal_strlit("live");
    reveal_strlit("test");
    assert("live"@[0] == 'l');
    assert("test"@[0] == 't');
    assert("live"@ != "test"@);
    lemma_authorization_round_trip(v.authorization);
    let ps = subscription_jval(v)->Obj_0;
    lemma_jlookup_at(ps, "customer"@, 0);
    lemma_jlookup_at(ps, "plan"@, 1);
    lemma_jlookup_at(ps, "integration"@, 2);
    lemma_jlookup_at(ps, "domain"@, 3);
    lemma_jlookup_at(ps, "start"@, 4);
    lemma_jlookup_at(ps, "status"@, 5);
    lemma_jlookup_at(ps, "quantity"@, 6);
    lemma_jlookup_at(ps, "amount"@, 7);
    lemma_jlookup_at(ps, "subscription_code"@, 8);
    lemma_jlookup_at(ps, "email_token"@, 9);
    lemma_jlookup_at(ps, "authorization"@, 10);
    lemma_jlookup_at(ps, "easy_cron_id"@, 11);
    lemma_jlookup_at(ps, "cron_expression"@, 12);
    lemma_jlookup_at(ps, "next_payment_date"@, 13);
    lemma_jlookup_at(ps, "open_invoice"@, 14);
    lemma_jlookup_at(ps, "id"@, 15);
    lemma_jlookup_at(ps, "createdAt"@, 16);
    lemma_jlookup_at(ps, "updatedAt"@, 17);
    assert(subscription_of(subscription_jval(v)) == Some(v));
}

} // verus!
