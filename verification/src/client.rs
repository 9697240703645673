//! The gateway to the Njalla API.
//!
//! Every call is one HTTP POST. The client says what to send and reads what
//! came back; sending is left to the caller.

use crate::config::Config;
use crate::error::{Failure, NjallaError};
use crate::json::{
    json_text, lemma_fields_empty, no_fields, object, parsed_json, push_integer, push_text,
    shape_error, Json, JsonValue, Member,
};
use crate::types::{
    missing_result_text, request_object, views, Accepted, AddRecordParams, ApiError, ApiRequest,
    ApiRequestView, ApiResponse, Domain, DomainsResult, EditRecordParams, FromJson,
    MarketDomain, MarketDomainsResult, Payment, PaymentMethod, Record, RecordsResult,
    RegisterResult, TaskStatus, Transaction, TransactionsResult, WalletBalance,
};
use crate::text::utf8_text;
use vstd::prelude::*;
use vstd::utf8::{decode_utf8, valid_utf8};

verus! {

/// Njalla API endpoint.
pub const API_ENDPOINT: &'static str = "https://njal.la/api/1/";

/// Default request timeout in seconds.
pub const DEFAULT_TIMEOUT_SECS: u64 = 30;

/// Njalla API client.
pub struct NjallaClient {
    /// API token.
    token: String,
    /// Base URL for API requests.
    base_url: String,
    /// Debug mode - print raw responses.
    debug: bool,
}

/// What a `NjallaClient` holds, as contracts see it.
pub ghost struct NjallaClientView {
    pub token: Seq<char>,
    pub base_url: Seq<char>,
    pub debug: bool,
}

impl View for NjallaClient {
    type V = NjallaClientView;

    closed spec fn view(&self) -> NjallaClientView {
        NjallaClientView { token: self.token@, base_url: self.base_url@, debug: self.debug }
    }
}

/// One HTTP POST, ready to be sent.
#[derive(Clone)]
pub struct HttpRequest {
    /// The API method that the request calls.
    pub method: String,
    /// Where to send it.
    pub url: String,
    /// The value of the `Authorization` header.
    pub authorization: String,
    /// The value of the `Content-Type` header.
    pub content_type: String,
    /// The body.
    pub body: String,
    /// How long to wait for the response, in seconds.
    pub timeout_secs: u64,
}

/// What a `HttpRequest` holds, as contracts see it.
pub ghost struct HttpRequestView {
    pub method: Seq<char>,
    pub url: Seq<char>,
    pub authorization: Seq<char>,
    pub content_type: Seq<char>,
    pub body: Seq<char>,
    pub timeout_secs: u64,
}

impl View for HttpRequest {
    type V = HttpRequestView;

    open spec fn view(&self) -> HttpRequestView {
        HttpRequestView {
            method: self.method@,
            url: self.url@,
            authorization: self.authorization@,
            content_type: self.content_type@,
            body: self.body@,
            timeout_secs: self.timeout_secs,
        }
    }
}

impl NjallaClientView {
    /// The request that calls `method` with `params`: a POST to the base
    /// address, authorized by the token, whose body is the request object as
    /// JSON text.
    pub open spec fn request_for(self, method: Seq<char>, params: JsonValue) -> HttpRequestView {
        HttpRequestView {
            method,
            url: self.base_url,
            authorization: "Njalla "@ + self.token,
            content_type: "application/json"@,
            body: json_text(request_object(method, params)),
            timeout_secs: DEFAULT_TIMEOUT_SECS,
        }
    }
}

/// How a call ended.
pub ghost enum Outcome<V> {
    /// No response was obtained.
    Unsent(bitreq::Error),
    /// The response is no JSON, or not of the expected shape.
    Undecodable,
    /// The API reported an error, with this message.
    Rejected(Seq<char>),
    /// The response holds neither a result nor an error.
    Missing,
    /// The response holds this result, and no error.
    Accepted(V),
}

/// How a call ended whose response, read as JSON, is `j`.
pub open spec fn envelope_outcome<T: FromJson>(j: JsonValue) -> Outcome<T::V> {
    match ApiResponse::<T>::decoded(j) {
        None => Outcome::Undecodable,
        Some(envelope) => match (envelope.error, envelope.result) {
            (Some(message), _) => Outcome::Rejected(message),
            (None, Some(value)) => Outcome::Accepted(value),
            (None, None) => Outcome::Missing,
        },
    }
}

/// How a call ended whose response body is `body`.
pub open spec fn body_outcome<T: FromJson>(body: Seq<char>) -> Outcome<T::V> {
    match parsed_json(body) {
        None => Outcome::Undecodable,
        Some(j) => envelope_outcome::<T>(j),
    }
}

/// How a call ended whose response body is the bytes `bytes`: bytes that are
/// no UTF-8 are a body that cannot be read.
pub open spec fn bytes_outcome<T: FromJson>(bytes: Seq<u8>) -> Outcome<T::V> {
    if valid_utf8(bytes) {
        body_outcome::<T>(decode_utf8(bytes))
    } else {
        Outcome::Undecodable
    }
}

/// How a call ended on which the transport reports `reply`: the bytes of the
/// response body, or why there is none.
pub open spec fn reply_outcome<T: FromJson>(reply: Result<Vec<u8>, bitreq::Error>) -> Outcome<
    T::V,
> {
    match reply {
        Err(cause) => Outcome::Unsent(cause),
        Ok(bytes) => bytes_outcome::<T>(bytes@),
    }
}

impl<V> Outcome<V> {
    /// The failure that the call ended in, if it ended in one.
    pub open spec fn failure(self) -> Option<Failure> {
        match self {
            Outcome::Unsent(cause) => Some(Failure::Transport(cause)),
            Outcome::Undecodable => Some(Failure::Decode),
            Outcome::Rejected(text) => Some(Failure::ApiRejected(text)),
            Outcome::Missing => Some(Failure::ApiRejected(missing_result_text())),
            Outcome::Accepted(_) => None,
        }
    }
}

/// Whether `e` is the error that a call returns which ended as `outcome`.
pub open spec fn is_error_of<V>(e: NjallaError, outcome: Outcome<V>) -> bool {
    outcome.failure() == Some(e@)
}

/// Whether `r` is what a call returns which ended as `outcome`.
pub open spec fn is_result_of<T: View>(r: Result<T, NjallaError>, outcome: Outcome<T::V>) -> bool {
    match r {
        Ok(value) => outcome == Outcome::Accepted(value@),
        Err(e) => is_error_of(e, outcome),
    }
}

/// A result is returned: a response object that holds a result of the
/// expected shape, and no error, ends the call with that result.
pub proof fn lemma_result_is_returned<T: FromJson>(j: JsonValue, value: T::V)
    requires
        j is Object,
        j.present("error"@) is None,
        j.present("result"@) matches Some(result) && T::decoded(result) == Some(value),
    ensures
        envelope_outcome::<T>(j) == Outcome::<T::V>::Accepted(value),
{
}

/// An error is reported: a response object that holds an error ends the call
/// with the error's message, whether or not it holds a result too, as long
/// as that result is of the expected shape.
pub proof fn lemma_error_is_reported<T: FromJson>(j: JsonValue, message: Seq<char>)
    requires
        j is Object,
        j.present("error"@) matches Some(error) && ApiError::decoded(error) == Some(message),
        j.present("result"@) matches Some(result) ==> T::decoded(result) is Some,
    ensures
        envelope_outcome::<T>(j) == Outcome::<T::V>::Rejected(message),
        envelope_outcome::<T>(j).failure() == Some(Failure::ApiRejected(message)),
{
}

/// A response object that holds neither a result nor an error ends the call
/// with the error that says that the result is missing.
pub proof fn lemma_empty_response_is_an_error<T: FromJson>(j: JsonValue)
    requires
        j is Object,
        j.present("error"@) is None,
        j.present("result"@) is None,
    ensures
        envelope_outcome::<T>(j) == Outcome::<T::V>::Missing,
        envelope_outcome::<T>(j).failure() == Some(Failure::ApiRejected(missing_result_text())),
{
}

/// Asking again changes nothing: two responses with the same body end their
/// calls the same way. What a call sends is fixed by the client and the
/// parameters, and reading a response changes neither.
pub proof fn lemma_same_body_same_outcome<T: FromJson>(
    first: Result<Vec<u8>, bitreq::Error>,
    second: Result<Vec<u8>, bitreq::Error>,
)
    requires
        first matches Ok(body) && second matches Ok(again) && body@ == again@,
    ensures
        reply_outcome::<T>(first) == reply_outcome::<T>(second),
{
}

/// Reads a response that has been read as JSON.
pub fn read_envelope<T: FromJson>(j: &Json) -> (r: Result<T, NjallaError>)
    ensures
        is_result_of(r, envelope_outcome::<T>(j@)),
{
    match ApiResponse::<T>::from_json(j) {
        None => Err(NjallaError::Parse(shape_error("response is not of the expected shape"))),
        Some(envelope) => envelope.into_result(),
    }
}

/// Reads the body of a response.
pub fn read_body<T: FromJson>(body: &str) -> (r: Result<T, NjallaError>)
    ensures
        is_result_of(r, body_outcome::<T>(body@)),
{
    match Json::parse(body) {
        Err(e) => Err(NjallaError::Parse(e)),
        Ok(j) => read_envelope::<T>(&j),
    }
}

/// Reads the bytes of a response body.
pub fn read_bytes<T: FromJson>(bytes: &[u8]) -> (r: Result<T, NjallaError>)
    ensures
        is_result_of(r, bytes_outcome::<T>(bytes@)),
{
    match utf8_text(bytes) {
        None => Err(NjallaError::Parse(shape_error("response body is not valid UTF-8"))),
        Some(body) => read_body::<T>(body),
    }
}

/// Reads what the transport reports of a call.
pub fn read_reply<T: FromJson>(reply: Result<Vec<u8>, bitreq::Error>) -> (r: Result<
    T,
    NjallaError,
>)
    ensures
        is_result_of(r, reply_outcome::<T>(reply)),
{
    match reply {
        Err(cause) => Err(NjallaError::Request(cause)),
        Ok(bytes) => read_bytes::<T>(bytes.as_slice()),
    }
}

/// The parameters of `list-domains`.
pub open spec fn list_domains_params() -> JsonValue {
    JsonValue::Object(no_fields())
}

/// The parameters of `get-domain`.
pub open spec fn get_domain_params(domain: Seq<char>) -> JsonValue {
    JsonValue::Object(no_fields().insert("domain"@, JsonValue::Text(domain)))
}

/// The parameters of `find-domains`.
pub open spec fn find_domains_params(query: Seq<char>) -> JsonValue {
    JsonValue::Object(no_fields().insert("query"@, JsonValue::Text(query)))
}

/// The parameters of `register-domain`.
pub open spec fn register_domain_params(domain: Seq<char>, years: i32) -> JsonValue {
    JsonValue::Object(
        no_fields().insert("domain"@, JsonValue::Text(domain)).insert(
            "years"@,
            JsonValue::Integer(years as int),
        ),
    )
}

/// The parameters of `check-task`.
pub open spec fn check_task_params(task_id: Seq<char>) -> JsonValue {
    JsonValue::Object(no_fields().insert("id"@, JsonValue::Text(task_id)))
}

/// The parameters of `list-records`.
pub open spec fn list_records_params(domain: Seq<char>) -> JsonValue {
    JsonValue::Object(no_fields().insert("domain"@, JsonValue::Text(domain)))
}

/// The parameters of `remove-record`.
pub open spec fn remove_record_params(domain: Seq<char>, id: Seq<char>) -> JsonValue {
    JsonValue::Object(
        no_fields().insert("domain"@, JsonValue::Text(domain)).insert("id"@, JsonValue::Text(id)),
    )
}

/// The parameters of `get-balance`.
pub open spec fn get_balance_params() -> JsonValue {
    JsonValue::Object(no_fields())
}

/// The parameters of `get-payment`.
pub open spec fn get_payment_params(id: Seq<char>) -> JsonValue {
    JsonValue::Object(no_fields().insert("id"@, JsonValue::Text(id)))
}

/// The parameters of `list-transactions`.
pub open spec fn list_transactions_params() -> JsonValue {
    JsonValue::Object(no_fields())
}

/// The parameters of `add-payment`.
pub open spec fn add_payment_params(amount: i32, via: PaymentMethod) -> JsonValue {
    JsonValue::Object(
        no_fields().insert("amount"@, JsonValue::Integer(amount as int)).insert(
            "via"@,
            JsonValue::Text(via.name()),
        ),
    )
}

/// The call of `find-domains` that searches for `query`.
pub fn find_domains_call(query: &str) -> (call: ApiRequest)
    ensures
        call@ == (ApiRequestView { method: "find-domains"@, params: find_domains_params(query@) }),
{
    let mut members: Vec<Member> = Vec::new();
    proof {
        lemma_fields_empty();
    }
    push_text(&mut members, "query", query);
    ApiRequest { method: String::from_str("find-domains"), params: object(members) }
}

/// The call of `register-domain` that registers `domain` for `years` years.
pub fn register_domain_call(domain: &str, years: i32) -> (call: ApiRequest)
    ensures
        call@ == (ApiRequestView {
            method: "register-domain"@,
            params: register_domain_params(domain@, years),
        }),
{
    let mut members: Vec<Member> = Vec::new();
    proof {
        lemma_fields_empty();
    }
    push_text(&mut members, "domain", domain);
    push_integer(&mut members, "years", years as i64);
    ApiRequest { method: String::from_str("register-domain"), params: object(members) }
}

/// The call of `check-task` that asks for the state of the task `task_id`.
pub fn check_task_call(task_id: &str) -> (call: ApiRequest)
    ensures
        call@ == (ApiRequestView { method: "check-task"@, params: check_task_params(task_id@) }),
{
    let mut members: Vec<Member> = Vec::new();
    proof {
        lemma_fields_empty();
    }
    push_text(&mut members, "id", task_id);
    ApiRequest { method: String::from_str("check-task"), params: object(members) }
}

/// Whether `r` is the request `expected`.
pub open spec fn is_request_of(r: Result<HttpRequest, NjallaError>, expected: HttpRequestView) -> bool {
    r matches Ok(request) && request@ == expected
}

impl NjallaClient {
    /// Create a new client from configuration.
    ///
    /// Returns `NjallaError::MissingToken` if no token is configured.
    pub fn new(config: &Config, debug: bool) -> (r: Result<Self, NjallaError>)
        ensures
            match config.token() {
                Some(token) => r matches Ok(client) && client@ == (NjallaClientView {
                    token,
                    base_url: API_ENDPOINT@,
                    debug,
                }),
                None => r matches Err(e) && e is MissingToken,
            },
    {
        match config.api_token() {
            Ok(token) => Ok(
                NjallaClient {
                    token: String::from_str(token),
                    base_url: String::from_str(API_ENDPOINT),
                    debug,
                },
            ),
            Err(e) => Err(e),
        }
    }

    /// Create a new client with a custom base URL (for testing).
    pub fn with_base_url(token: &str, base_url: &str) -> (client: Self)
        ensures
            client@ == (NjallaClientView { token: token@, base_url: base_url@, debug: false }),
    {
        NjallaClient {
            token: String::from_str(token),
            base_url: String::from_str(base_url),
            debug: false,
        }
    }

    /// The request that makes `call`: one POST to the base address, authorized
    /// by the token, whose body is the request object as JSON text. There is
    /// such a request for every call.
    pub fn prepare(&self, call: ApiRequest) -> (r: Result<HttpRequest, NjallaError>)
        ensures
            is_request_of(r, self@.request_for(call.method@, call.params@)),
    {
        let method = call.method.clone();
        let envelope = call.into_json();
        match envelope.to_text() {
            Err(e) => Err(NjallaError::Parse(e)),
            Ok(body) => {
                let mut authorization = String::from_str("Njalla ");
                authorization.append(self.token.as_str());
                Ok(
                    HttpRequest {
                        method,
                        url: self.base_url.clone(),
                        authorization,
                        content_type: String::from_str("application/json"),
                        body,
                        timeout_secs: DEFAULT_TIMEOUT_SECS,
                    },
                )
            },
        }
    }

    /// The request that calls `method` with `params`, as `prepare` makes it.
    pub fn request(&self, method: &str, params: Json) -> (r: Result<HttpRequest, NjallaError>)
        ensures
            is_request_of(r, self@.request_for(method@, params@)),
    {
        self.prepare(ApiRequest { method: String::from_str(method), params })
    }

    /// The line that debug mode prints before `request` is sent; `None`
    /// outside debug mode.
    pub fn request_trace(&self, request: &HttpRequest) -> (line: Option<String>)
        ensures
            match line {
                Some(text) => self@.debug && text@ == "[DEBUG] Request: "@ + request.method@ + " "@
                    + request.body@,
                None => !self@.debug,
            },
    {
        if self.debug {
            let mut text = String::from_str("[DEBUG] Request: ");
            text.append(request.method.as_str());
            text.append(" ");
            text.append(request.body.as_str());
            Some(text)
        } else {
            None
        }
    }

    /// The line that debug mode prints when the response body `body` has
    /// come; `None` outside debug mode.
    pub fn response_trace(&self, body: &str) -> (line: Option<String>)
        ensures
            match line {
                Some(text) => self@.debug && text@ == "[DEBUG] Response: "@ + body@,
                None => !self@.debug,
            },
    {
        if self.debug {
            let mut text = String::from_str("[DEBUG] Response: ");
            text.append(body);
            Some(text)
        } else {
            None
        }
    }

    /// List all domains in the account. This is the request to send.
    pub fn list_domains(&self) -> (r: Result<HttpRequest, NjallaError>)
        ensures
            is_request_of(r, self@.request_for("list-domains"@, list_domains_params())),
    {
        let members: Vec<Member> = Vec::new();
        proof {
            lemma_fields_empty();
        }
        self.request("list-domains", object(members))
    }

    /// Reads what came back from `list-domains`.
    pub fn list_domains_reply(
        &self,
        reply: Result<Vec<u8>, bitreq::Error>,
    ) -> (r: Result<Vec<Domain>, NjallaError>)
        ensures
            match r {
                Ok(value) => reply_outcome::<DomainsResult>(reply) == Outcome::Accepted(views(value@)),
                Err(e) => is_error_of(e, reply_outcome::<DomainsResult>(reply)),
            },
    {
        match read_reply::<DomainsResult>(reply) {
            Ok(result) => Ok(result.domains),
            Err(e) => Err(e),
        }
    }

    /// Get detailed info for a specific domain. This is the request to send.
    pub fn get_domain(&self, domain: &str) -> (r: Result<HttpRequest, NjallaError>)
        ensures
            is_request_of(r, self@.request_for("get-domain"@, get_domain_params(domain@))),
    {
        let mut members: Vec<Member> = Vec::new();
        proof {
            lemma_fields_empty();
        }
        push_text(&mut members, "domain", domain);
        self.request("get-domain", object(members))
    }

    /// Reads what came back from `get-domain`.
    pub fn get_domain_reply(
        &self,
        reply: Result<Vec<u8>, bitreq::Error>,
    ) -> (r: Result<Domain, NjallaError>)
        ensures
            match r {
                Ok(value) => reply_outcome::<Domain>(reply) == Outcome::Accepted(value@),
                Err(e) => is_error_of(e, reply_outcome::<Domain>(reply)),
            },
    {
        match read_reply::<Domain>(reply) {
            Ok(result) => Ok(result),
            Err(e) => Err(e),
        }
    }

    /// Search for available domains. This is the request to send.
    pub fn find_domains(&self, query: &str) -> (r: Result<HttpRequest, NjallaError>)
        ensures
            is_request_of(r, self@.request_for("find-domains"@, find_domains_params(query@))),
    {
        self.prepare(find_domains_call(query))
    }

    /// Reads what came back from `find-domains`.
    pub fn find_domains_reply(
        &self,
        reply: Result<Vec<u8>, bitreq::Error>,
    ) -> (r: Result<Vec<MarketDomain>, NjallaError>)
        ensures
            match r {
                Ok(value) => reply_outcome::<MarketDomainsResult>(reply) == Outcome::Accepted(views(value@)),
                Err(e) => is_error_of(e, reply_outcome::<MarketDomainsResult>(reply)),
            },
    {
        match read_reply::<MarketDomainsResult>(reply) {
            Ok(result) => Ok(result.domains),
            Err(e) => Err(e),
        }
    }

    /// Register a domain (returns task ID). This is the request to send.
    pub fn register_domain(&self, domain: &str, years: i32) -> (r: Result<HttpRequest, NjallaError>)
        ensures
            is_request_of(r, self@.request_for("register-domain"@, register_domain_params(domain@, years))),
    {
        self.prepare(register_domain_call(domain, years))
    }

    /// Reads what came back from `register-domain`.
    pub fn register_domain_reply(
        &self,
        reply: Result<Vec<u8>, bitreq::Error>,
    ) -> (r: Result<String, NjallaError>)
        ensures
            match r {
                Ok(value) => reply_outcome::<RegisterResult>(reply) == Outcome::Accepted(value@),
                Err(e) => is_error_of(e, reply_outcome::<RegisterResult>(reply)),
            },
    {
        match read_reply::<RegisterResult>(reply) {
            Ok(result) => Ok(result.task),
            Err(e) => Err(e),
        }
    }

    /// Check task status. This is the request to send.
    pub fn check_task(&self, task_id: &str) -> (r: Result<HttpRequest, NjallaError>)
        ensures
            is_request_of(r, self@.request_for("check-task"@, check_task_params(task_id@))),
    {
        self.prepare(check_task_call(task_id))
    }

    /// Reads what came back from `check-task`.
    pub fn check_task_reply(
        &self,
        reply: Result<Vec<u8>, bitreq::Error>,
    ) -> (r: Result<TaskStatus, NjallaError>)
        ensures
            match r {
                Ok(value) => reply_outcome::<TaskStatus>(reply) == Outcome::Accepted(value@),
                Err(e) => is_error_of(e, reply_outcome::<TaskStatus>(reply)),
            },
    {
        match read_reply::<TaskStatus>(reply) {
            Ok(result) => Ok(result),
            Err(e) => Err(e),
        }
    }

    /// List DNS records for a domain. This is the request to send.
    pub fn list_records(&self, domain: &str) -> (r: Result<HttpRequest, NjallaError>)
        ensures
            is_request_of(r, self@.request_for("list-records"@, list_records_params(domain@))),
    {
        let mut members: Vec<Member> = Vec::new();
        proof {
            lemma_fields_empty();
        }
        push_text(&mut members, "domain", domain);
        self.request("list-records", object(members))
    }

    /// Reads what came back from `list-records`.
    pub fn list_records_reply(
        &self,
        reply: Result<Vec<u8>, bitreq::Error>,
    ) -> (r: Result<Vec<Record>, NjallaError>)
        ensures
            match r {
                Ok(value) => reply_outcome::<RecordsResult>(reply) == Outcome::Accepted(views(value@)),
                Err(e) => is_error_of(e, reply_outcome::<RecordsResult>(reply)),
            },
    {
        match read_reply::<RecordsResult>(reply) {
            Ok(result) => Ok(result.records),
            Err(e) => Err(e),
        }
    }

    /// Remove a DNS record from a domain. This is the request to send.
    pub fn remove_record(&self, domain: &str, id: &str) -> (r: Result<HttpRequest, NjallaError>)
        ensures
            is_request_of(r, self@.request_for("remove-record"@, remove_record_params(domain@, id@))),
    {
        let mut members: Vec<Member> = Vec::new();
        proof {
            lemma_fields_empty();
        }
        push_text(&mut members, "domain", domain);
        push_text(&mut members, "id", id);
        self.request("remove-record", object(members))
    }

    /// Reads what came back from `remove-record`.
    pub fn remove_record_reply(
        &self,
        reply: Result<Vec<u8>, bitreq::Error>,
    ) -> (r: Result<(), NjallaError>)
        ensures
            match r {
                Ok(_) => reply_outcome::<Accepted>(reply) == Outcome::Accepted(()),
                Err(e) => is_error_of(e, reply_outcome::<Accepted>(reply)),
            },
    {
        match read_reply::<Accepted>(reply) {
            Ok(_) => Ok(()),
            Err(e) => Err(e),
        }
    }

    /// Get wallet balance. This is the request to send.
    pub fn get_balance(&self) -> (r: Result<HttpRequest, NjallaError>)
        ensures
            is_request_of(r, self@.request_for("get-balance"@, get_balance_params())),
    {
        let members: Vec<Member> = Vec::new();
        proof {
            lemma_fields_empty();
        }
        self.request("get-balance", object(members))
    }

    /// Reads what came back from `get-balance`.
    pub fn get_balance_reply(
        &self,
        reply: Result<Vec<u8>, bitreq::Error>,
    ) -> (r: Result<WalletBalance, NjallaError>)
        ensures
            match r {
                Ok(value) => reply_outcome::<WalletBalance>(reply) == Outcome::Accepted(value@),
                Err(e) => is_error_of(e, reply_outcome::<WalletBalance>(reply)),
            },
    {
        match read_reply::<WalletBalance>(reply) {
            Ok(result) => Ok(result),
            Err(e) => Err(e),
        }
    }

    /// Get details about a payment. This is the request to send.
    pub fn get_payment(&self, id: &str) -> (r: Result<HttpRequest, NjallaError>)
        ensures
            is_request_of(r, self@.request_for("get-payment"@, get_payment_params(id@))),
    {
        let mut members: Vec<Member> = Vec::new();
        proof {
            lemma_fields_empty();
        }
        push_text(&mut members, "id", id);
        self.request("get-payment", object(members))
    }

    /// Reads what came back from `get-payment`.
    pub fn get_payment_reply(
        &self,
        reply: Result<Vec<u8>, bitreq::Error>,
    ) -> (r: Result<Payment, NjallaError>)
        ensures
            match r {
                Ok(value) => reply_outcome::<Payment>(reply) == Outcome::Accepted(value@),
                Err(e) => is_error_of(e, reply_outcome::<Payment>(reply)),
            },
    {
        match read_reply::<Payment>(reply) {
            Ok(result) => Ok(result),
            Err(e) => Err(e),
        }
    }

    /// List transactions from the last 90 days. This is the request to send.
    pub fn list_transactions(&self) -> (r: Result<HttpRequest, NjallaError>)
        ensures
            is_request_of(r, self@.request_for("list-transactions"@, list_transactions_params())),
    {
        let members: Vec<Member> = Vec::new();
        proof {
            lemma_fields_empty();
        }
        self.request("list-transactions", object(members))
    }

    /// Reads what came back from `list-transactions`.
    pub fn list_transactions_reply(
        &self,
        reply: Result<Vec<u8>, bitreq::Error>,
    ) -> (r: Result<Vec<Transaction>, NjallaError>)
        ensures
            match r {
                Ok(value) => reply_outcome::<TransactionsResult>(reply) == Outcome::Accepted(views(value@)),
                Err(e) => is_error_of(e, reply_outcome::<TransactionsResult>(reply)),
            },
    {
        match read_reply::<TransactionsResult>(reply) {
            Ok(result) => Ok(result.transactions),
            Err(e) => Err(e),
        }
    }

    /// Add a DNS record to a domain. This is the request to send.
    pub fn add_record(&self, params: &AddRecordParams) -> (r: Result<HttpRequest, NjallaError>)
        ensures
            is_request_of(r, self@.request_for("add-record"@, JsonValue::Object(params.wire()))),
    {
        self.request("add-record", params.to_json())
    }

    /// Reads what came back from `add-record`.
    pub fn add_record_reply(&self, reply: Result<Vec<u8>, bitreq::Error>) -> (r: Result<
        Record,
        NjallaError,
    >)
        ensures
            is_result_of(r, reply_outcome::<Record>(reply)),
    {
        read_reply::<Record>(reply)
    }

    /// Edit an existing DNS record. This is the request to send.
    pub fn edit_record(&self, params: &EditRecordParams) -> (r: Result<HttpRequest, NjallaError>)
        ensures
            is_request_of(r, self@.request_for("edit-record"@, JsonValue::Object(params.wire()))),
    {
        self.request("edit-record", params.to_json())
    }

    /// Reads what came back from `edit-record`.
    pub fn edit_record_reply(&self, reply: Result<Vec<u8>, bitreq::Error>) -> (r: Result<
        Record,
        NjallaError,
    >)
        ensures
            is_result_of(r, reply_outcome::<Record>(reply)),
    {
        read_reply::<Record>(reply)
    }

    /// Add payment to refill wallet. This is the request to send.
    ///
    /// `amount` is in EUR (5 or multiple of 15, max 300).
    pub fn add_payment(&self, amount: i32, via: PaymentMethod) -> (r: Result<
        HttpRequest,
        NjallaError,
    >)
        ensures
            is_request_of(r, self@.request_for("add-payment"@, add_payment_params(amount, via))),
    {
        let mut members: Vec<Member> = Vec::new();
        proof {
            lemma_fields_empty();
        }
        push_integer(&mut members, "amount", amount as i64);
        let name = via.to_string();
        push_text(&mut members, "via", name.as_str());
        self.request("add-payment", object(members))
    }

    /// Reads what came back from `add-payment`.
    pub fn add_payment_reply(&self, reply: Result<Vec<u8>, bitreq::Error>) -> (r: Result<
        Payment,
        NjallaError,
    >)
        ensures
            is_result_of(r, reply_outcome::<Payment>(reply)),
    {
        read_reply::<Payment>(reply)
    }
}

} // verus!
