//! The values that the Njalla API sends and takes, and how each is read from
//! JSON.

use crate::error::NjallaError;
use crate::json::{
    lemma_fields_empty, no_fields, object, push_optional_integer, push_optional_text,
    push_text, push_value, with_integer, with_text, Json, JsonValue, Member,
};
use crate::text::str_eq;
use vstd::prelude::*;

verus! {

/// The views of a sequence of values, item by item.
pub open spec fn views<T: View>(items: Seq<T>) -> Seq<T::V> {
    Seq::new(items.len(), |i: int| items[i]@)
}

/// The view of a text that may be missing.
pub open spec fn text_view(text: Option<String>) -> Option<Seq<char>> {
    match text {
        Some(s) => Some(s@),
        None => None,
    }
}

/// The view of a number that may be missing.
pub open spec fn int_view(n: Option<i32>) -> Option<int> {
    match n {
        Some(n) => Some(n as int),
        None => None,
    }
}

/// A type of value that is read from JSON.
pub trait FromJson: View + Sized {
    /// The value that `j` spells, or `None` where it spells none of this type.
    spec fn decoded(j: JsonValue) -> Option<Self::V>;

    /// Reads a value from `j`.
    fn from_json(j: &Json) -> (r: Option<Self>)
        ensures
            match r {
                Some(v) => Self::decoded(j@) == Some(v@),
                None => Self::decoded(j@) is None,
            },
    ;
}

/// The values that the items of the array `j` spell, or `None` where `j` is no
/// array or one of its items spells none.
pub open spec fn decoded_items<T: FromJson>(j: JsonValue) -> Option<Seq<T::V>> {
    match j {
        JsonValue::Array(items) => if forall|i: int|
            0 <= i < items.len() ==> (#[trigger] T::decoded(items[i])) is Some {
            Some(Seq::new(items.len(), |i: int| T::decoded(items[i])->Some_0))
        } else {
            None
        },
        _ => None,
    }
}

/// Reads each item of an array.
pub fn items_from_json<T: FromJson>(j: &Json) -> (r: Option<Vec<T>>)
    ensures
        match r {
            Some(v) => decoded_items::<T>(j@) == Some(views(v@)),
            None => decoded_items::<T>(j@) is None,
        },
{
    match j {
        Json::Array(items) => {
            let ghost spelled = j@->Array_0;
            assert(spelled.len() == items@.len());
            assert(forall|k: int| 0 <= k < items@.len() ==> spelled[k] == items@[k]@);
            let mut out: Vec<T> = Vec::new();
            let mut i: usize = 0;
            while i < items.len()
                invariant
                    i <= items.len(),
                    out@.len() == i,
                    j@ == JsonValue::Array(spelled),
                    spelled.len() == items@.len(),
                    forall|k: int| 0 <= k < items@.len() ==> spelled[k] == items@[k]@,
                    forall|k: int|
                        0 <= k < i ==> (#[trigger] T::decoded(spelled[k])) == Some(out@[k]@),
                decreases items.len() - i,
            {
                match T::from_json(&items[i]) {
                    Some(v) => {
                        out.push(v);
                    },
                    None => {
                        assert(T::decoded(spelled[i as int]) is None);
                        return None;
                    },
                }
                i = i + 1;
            }
            assert(decoded_items::<T>(j@)->Some_0 =~= views(out@));
            Some(out)
        },
        _ => None,
    }
}

/// Domain availability and pricing from `find-domains`.
#[derive(Debug, Clone)]
pub struct MarketDomain {
    /// Domain name.
    pub name: String,
    /// Availability status ("available" or "taken").
    pub status: String,
    /// Price in EUR per year.
    pub price: i32,
}

/// What a `MarketDomain` holds, as contracts see it.
pub ghost struct MarketDomainView {
    pub name: Seq<char>,
    pub status: Seq<char>,
    pub price: int,
}

impl View for MarketDomain {
    type V = MarketDomainView;

    open spec fn view(&self) -> MarketDomainView {
        MarketDomainView { name: self.name@, status: self.status@, price: self.price as int }
    }
}

impl FromJson for MarketDomain {
    open spec fn decoded(j: JsonValue) -> Option<MarketDomainView> {
        match (j.required_text("name"@), j.required_text("status"@), j.required_int32("price"@)) {
            (Some(name), Some(status), Some(price)) => Some(
                MarketDomainView { name, status, price },
            ),
            _ => None,
        }
    }

    fn from_json(j: &Json) -> (r: Option<Self>) {
        let name = j.required_text("name")?;
        let status = j.required_text("status")?;
        let price = j.required_int32("price")?;
        Some(MarketDomain { name, status, price })
    }
}

/// Response for `find-domains`.
#[derive(Debug)]
pub struct MarketDomainsResult {
    /// List of domain search results.
    pub domains: Vec<MarketDomain>,
}

impl View for MarketDomainsResult {
    type V = Seq<MarketDomainView>;

    open spec fn view(&self) -> Seq<MarketDomainView> {
        views(self.domains@)
    }
}

impl FromJson for MarketDomainsResult {
    open spec fn decoded(j: JsonValue) -> Option<Seq<MarketDomainView>> {
        match j.field("domains"@) {
            Some(list) => decoded_items::<MarketDomain>(list),
            None => None,
        }
    }

    fn from_json(j: &Json) -> (r: Option<Self>) {
        let list = j.get("domains")?;
        let domains = items_from_json::<MarketDomain>(list)?;
        Some(MarketDomainsResult { domains })
    }
}

/// Response for `register-domain`.
#[derive(Debug)]
pub struct RegisterResult {
    /// Task ID for tracking registration.
    pub task: String,
}

impl View for RegisterResult {
    type V = Seq<char>;

    open spec fn view(&self) -> Seq<char> {
        self.task@
    }
}

impl FromJson for RegisterResult {
    open spec fn decoded(j: JsonValue) -> Option<Seq<char>> {
        j.required_text("task"@)
    }

    fn from_json(j: &Json) -> (r: Option<Self>) {
        let task = j.required_text("task")?;
        Some(RegisterResult { task })
    }
}

/// Task status for async operations.
#[derive(Debug, Clone)]
pub struct TaskStatus {
    /// Task ID.
    pub id: String,
    /// Task status ("pending", "processing", "completed", "failed").
    pub status: String,
}

/// What a `TaskStatus` holds, as contracts see it.
pub ghost struct TaskStatusView {
    pub id: Seq<char>,
    pub status: Seq<char>,
}

impl View for TaskStatus {
    type V = TaskStatusView;

    open spec fn view(&self) -> TaskStatusView {
        TaskStatusView { id: self.id@, status: self.status@ }
    }
}

impl FromJson for TaskStatus {
    open spec fn decoded(j: JsonValue) -> Option<TaskStatusView> {
        match (j.required_text("id"@), j.required_text("status"@)) {
            (Some(id), Some(status)) => Some(TaskStatusView { id, status }),
            _ => None,
        }
    }

    fn from_json(j: &Json) -> (r: Option<Self>) {
        let id = j.required_text("id")?;
        let status = j.required_text("status")?;
        Some(TaskStatus { id, status })
    }
}

/// A result that is accepted whatever it holds, as long as it is there.
#[derive(Debug, Clone, Copy)]
pub struct Accepted;

impl View for Accepted {
    type V = ();

    open spec fn view(&self) -> () {
        ()
    }
}

impl FromJson for Accepted {
    open spec fn decoded(j: JsonValue) -> Option<()> {
        Some(())
    }

    fn from_json(j: &Json) -> (r: Option<Self>) {
        Some(Accepted)
    }
}

/// API error response.
#[derive(Debug)]
pub struct ApiError {
    /// Error message.
    pub message: String,
}

impl View for ApiError {
    type V = Seq<char>;

    open spec fn view(&self) -> Seq<char> {
        self.message@
    }
}

impl FromJson for ApiError {
    open spec fn decoded(j: JsonValue) -> Option<Seq<char>> {
        j.required_text("message"@)
    }

    fn from_json(j: &Json) -> (r: Option<Self>) {
        let message = j.required_text("message")?;
        Some(ApiError { message })
    }
}

/// API response wrapper.
#[derive(Debug)]
pub struct ApiResponse<T> {
    /// Successful result.
    pub result: Option<T>,
    /// Error information.
    pub error: Option<ApiError>,
}

/// What a `ApiResponse` holds, as contracts see it.
pub ghost struct ApiResponseView<V> {
    pub result: Option<V>,
    pub error: Option<Seq<char>>,
}

impl<T: View> View for ApiResponse<T> {
    type V = ApiResponseView<T::V>;

    open spec fn view(&self) -> ApiResponseView<T::V> {
        ApiResponseView {
            result: match self.result {
                Some(t) => Some(t@),
                None => None,
            },
            error: match self.error {
                Some(e) => Some(e@),
                None => None,
            },
        }
    }
}

/// The message of the error for a response that has neither a result nor an
/// error.
pub open spec fn missing_result_text() -> Seq<char> {
    "Missing result in response"@
}

impl<T> ApiResponse<T> {
    /// What the response comes to: the error where it has one, whether or not
    /// it has a result too; else the result; else an error that says that the
    /// result is missing.
    pub fn into_result(self) -> (r: Result<T, NjallaError>)
        ensures
            match (self.error, self.result) {
                (Some(e), _) => r matches Err(NjallaError::Api { message }) && message == e.message,
                (None, Some(t)) => r == Ok::<T, NjallaError>(t),
                (None, None) => r matches Err(NjallaError::Api { message }) && message@
                    == missing_result_text(),
            },
    {
        match self.error {
            Some(e) => Err(NjallaError::Api { message: e.message }),
            None => match self.result {
                Some(t) => Ok(t),
                None => Err(
                    NjallaError::Api { message: String::from_str("Missing result in response") },
                ),
            },
        }
    }
}

impl<T: FromJson> FromJson for ApiResponse<T> {
    open spec fn decoded(j: JsonValue) -> Option<ApiResponseView<T::V>> {
        if !(j is Object) {
            None
        } else if j.present("result"@) is Some && T::decoded(j.present("result"@).unwrap())
            is None {
            None
        } else if j.present("error"@) is Some && ApiError::decoded(j.present("error"@).unwrap())
            is None {
            None
        } else {
            Some(
                ApiResponseView {
                    result: match j.present("result"@) {
                        Some(v) => T::decoded(v),
                        None => None,
                    },
                    error: match j.present("error"@) {
                        Some(v) => ApiError::decoded(v),
                        None => None,
                    },
                },
            )
        }
    }

    fn from_json(j: &Json) -> (r: Option<Self>) {
        match j {
            Json::Object(_) => {},
            _ => {
                return None;
            },
        }
        let result = match j.get_present("result") {
            Some(v) => Some(T::from_json(v)?),
            None => None,
        };
        let error = match j.get_present("error") {
            Some(v) => Some(ApiError::from_json(v)?),
            None => None,
        };
        Some(ApiResponse { result, error })
    }
}

/// Domain information returned by `list-domains` and `get-domain`.
#[derive(Debug, Clone)]
pub struct Domain {
    /// Domain name (e.g., "example.com").
    pub name: String,
    /// Domain status (e.g., "active", "pending").
    pub status: String,
    /// Expiration date (ISO 8601 format).
    pub expiry: Option<String>,
    /// Whether the domain is locked for transfer.
    pub locked: Option<bool>,
    /// Whether mail forwarding is enabled.
    pub mailforwarding: Option<bool>,
    /// Maximum number of nameservers allowed.
    pub max_nameservers: Option<i32>,
}

/// What a `Domain` holds, as contracts see it.
pub ghost struct DomainView {
    pub name: Seq<char>,
    pub status: Seq<char>,
    pub expiry: Option<Seq<char>>,
    pub locked: Option<bool>,
    pub mailforwarding: Option<bool>,
    pub max_nameservers: Option<int>,
}

impl View for Domain {
    type V = DomainView;

    open spec fn view(&self) -> DomainView {
        DomainView {
            name: self.name@,
            status: self.status@,
            expiry: text_view(self.expiry),
            locked: self.locked,
            mailforwarding: self.mailforwarding,
            max_nameservers: int_view(self.max_nameservers),
        }
    }
}

impl FromJson for Domain {
    open spec fn decoded(j: JsonValue) -> Option<DomainView> {
        if j.required_text("name"@) is Some && j.required_text("status"@) is Some
            && j.optional_text("expiry"@) is Some && j.optional_boolean("locked"@) is Some
            && j.optional_boolean("mailforwarding"@) is Some && j.optional_int32(
            "max_nameservers"@,
        ) is Some {
            Some(
                DomainView {
                    name: j.required_text("name"@).unwrap(),
                    status: j.required_text("status"@).unwrap(),
                    expiry: j.optional_text("expiry"@).unwrap(),
                    locked: j.optional_boolean("locked"@).unwrap(),
                    mailforwarding: j.optional_boolean("mailforwarding"@).unwrap(),
                    max_nameservers: j.optional_int32("max_nameservers"@).unwrap(),
                },
            )
        } else {
            None
        }
    }

    fn from_json(j: &Json) -> (r: Option<Self>) {
        let name = j.required_text("name")?;
        let status = j.required_text("status")?;
        let expiry = j.optional_text("expiry")?;
        let locked = j.optional_boolean("locked")?;
        let mailforwarding = j.optional_boolean("mailforwarding")?;
        let max_nameservers = j.optional_int32("max_nameservers")?;
        Some(Domain { name, status, expiry, locked, mailforwarding, max_nameservers })
    }
}

/// Response for `list-domains`.
#[derive(Debug)]
pub struct DomainsResult {
    /// List of domains.
    pub domains: Vec<Domain>,
}

impl View for DomainsResult {
    type V = Seq<DomainView>;

    open spec fn view(&self) -> Seq<DomainView> {
        views(self.domains@)
    }
}

impl FromJson for DomainsResult {
    open spec fn decoded(j: JsonValue) -> Option<Seq<DomainView>> {
        match j.field("domains"@) {
            Some(list) => decoded_items::<Domain>(list),
            None => None,
        }
    }

    fn from_json(j: &Json) -> (r: Option<Self>) {
        let list = j.get("domains")?;
        let domains = items_from_json::<Domain>(list)?;
        Some(DomainsResult { domains })
    }
}

/// Wallet balance information.
#[derive(Debug, Clone)]
pub struct WalletBalance {
    /// Current balance in euros.
    pub balance: i32,
}

impl View for WalletBalance {
    type V = int;

    open spec fn view(&self) -> int {
        self.balance as int
    }
}

impl FromJson for WalletBalance {
    open spec fn decoded(j: JsonValue) -> Option<int> {
        j.required_int32("balance"@)
    }

    fn from_json(j: &Json) -> (r: Option<Self>) {
        let balance = j.required_int32("balance")?;
        Some(WalletBalance { balance })
    }
}

/// Payment information from `add-payment` or `get-payment`.
#[derive(Debug, Clone)]
pub struct Payment {
    /// Payment ID.
    pub id: Option<String>,
    /// Payment amount in euros.
    pub amount: i32,
    /// Currency (e.g., "EUR").
    pub currency: Option<String>,
    /// Amount in BTC (for Bitcoin payments).
    pub amount_btc: Option<String>,
    /// Payment status (for get-payment).
    pub status: Option<String>,
    /// Payment address (for crypto payments).
    pub address: Option<String>,
    /// Bitcoin URI for payment (e.g., "bitcoin:address?amount=X").
    pub uri: Option<String>,
    /// Payment URL (if provided by the API).
    pub url: Option<String>,
}

/// What a `Payment` holds, as contracts see it.
pub ghost struct PaymentView {
    pub id: Option<Seq<char>>,
    pub amount: int,
    pub currency: Option<Seq<char>>,
    pub amount_btc: Option<Seq<char>>,
    pub status: Option<Seq<char>>,
    pub address: Option<Seq<char>>,
    pub uri: Option<Seq<char>>,
    pub url: Option<Seq<char>>,
}

impl View for Payment {
    type V = PaymentView;

    open spec fn view(&self) -> PaymentView {
        PaymentView {
            id: text_view(self.id),
            amount: self.amount as int,
            currency: text_view(self.currency),
            amount_btc: text_view(self.amount_btc),
            status: text_view(self.status),
            address: text_view(self.address),
            uri: text_view(self.uri),
            url: text_view(self.url),
        }
    }
}

impl FromJson for Payment {
    open spec fn decoded(j: JsonValue) -> Option<PaymentView> {
        if j.optional_text("id"@) is Some && j.required_int32("amount"@) is Some
            && j.optional_text("currency"@) is Some && j.optional_text("amount_btc"@) is Some
            && j.optional_text("status"@) is Some && j.optional_text("address"@) is Some
            && j.optional_text("uri"@) is Some && j.optional_text("url"@) is Some {
            Some(
                PaymentView {
                    id: j.optional_text("id"@).unwrap(),
                    amount: j.required_int32("amount"@).unwrap(),
                    currency: j.optional_text("currency"@).unwrap(),
                    amount_btc: j.optional_text("amount_btc"@).unwrap(),
                    status: j.optional_text("status"@).unwrap(),
                    address: j.optional_text("address"@).unwrap(),
                    uri: j.optional_text("uri"@).unwrap(),
                    url: j.optional_text("url"@).unwrap(),
                },
            )
        } else {
            None
        }
    }

    fn from_json(j: &Json) -> (r: Option<Self>) {
        let id = j.optional_text("id")?;
        let amount = j.required_int32("amount")?;
        let currency = j.optional_text("currency")?;
        let amount_btc = j.optional_text("amount_btc")?;
        let status = j.optional_text("status")?;
        let address = j.optional_text("address")?;
        let uri = j.optional_text("uri")?;
        let url = j.optional_text("url")?;
        Some(Payment { id, amount, currency, amount_btc, status, address, uri, url })
    }
}

/// A wallet transaction.
#[derive(Debug, Clone)]
pub struct Transaction {
    /// Transaction ID.
    pub id: String,
    /// Transaction amount in euros.
    pub amount: i32,
    /// Transaction status/description.
    pub status: String,
    /// Completion date (for completed transactions).
    pub completed: Option<String>,
    /// Invoice PDF URL (for completed transactions).
    pub pdf: Option<String>,
    /// Bitcoin URI (for pending payments).
    pub uri: Option<String>,
    /// Payment address (for pending crypto payments).
    pub address: Option<String>,
    /// Currency code (for pending payments).
    pub currency: Option<String>,
    /// Amount in BTC (for Bitcoin payments).
    pub amount_btc: Option<String>,
}

/// What a `Transaction` holds, as contracts see it.
pub ghost struct TransactionView {
    pub id: Seq<char>,
    pub amount: int,
    pub status: Seq<char>,
    pub completed: Option<Seq<char>>,
    pub pdf: Option<Seq<char>>,
    pub uri: Option<Seq<char>>,
    pub address: Option<Seq<char>>,
    pub currency: Option<Seq<char>>,
    pub amount_btc: Option<Seq<char>>,
}

impl View for Transaction {
    type V = TransactionView;

    open spec fn view(&self) -> TransactionView {
        TransactionView {
            id: self.id@,
            amount: self.amount as int,
            status: self.status@,
            completed: text_view(self.completed),
            pdf: text_view(self.pdf),
            uri: text_view(self.uri),
            address: text_view(self.address),
            currency: text_view(self.currency),
            amount_btc: text_view(self.amount_btc),
        }
    }
}

impl FromJson for Transaction {
    open spec fn decoded(j: JsonValue) -> Option<TransactionView> {
        if j.required_text("id"@) is Some && j.required_int32("amount"@) is Some
            && j.required_text("status"@) is Some && j.optional_text("completed"@) is Some
            && j.optional_text("pdf"@) is Some && j.optional_text("uri"@) is Some
            && j.optional_text("address"@) is Some && j.optional_text("currency"@) is Some
            && j.optional_text("amount_btc"@) is Some {
            Some(
                TransactionView {
                    id: j.required_text("id"@).unwrap(),
                    amount: j.required_int32("amount"@).unwrap(),
                    status: j.required_text("status"@).unwrap(),
                    completed: j.optional_text("completed"@).unwrap(),
                    pdf: j.optional_text("pdf"@).unwrap(),
                    uri: j.optional_text("uri"@).unwrap(),
                    address: j.optional_text("address"@).unwrap(),
                    currency: j.optional_text("currency"@).unwrap(),
                    amount_btc: j.optional_text("amount_btc"@).unwrap(),
                },
            )
        } else {
            None
        }
    }

    fn from_json(j: &Json) -> (r: Option<Self>) {
        let id = j.required_text("id")?;
        let amount = j.required_int32("amount")?;
        let status = j.required_text("status")?;
        let completed = j.optional_text("completed")?;
        let pdf = j.optional_text("pdf")?;
        let uri = j.optional_text("uri")?;
        let address = j.optional_text("address")?;
        let currency = j.optional_text("currency")?;
        let amount_btc = j.optional_text("amount_btc")?;
        Some(
            Transaction { id, amount, status, completed, pdf, uri, address, currency, amount_btc },
        )
    }
}

/// Response for `list-transactions`.
#[derive(Debug)]
pub struct TransactionsResult {
    /// List of transactions.
    pub transactions: Vec<Transaction>,
}

impl View for TransactionsResult {
    type V = Seq<TransactionView>;

    open spec fn view(&self) -> Seq<TransactionView> {
        views(self.transactions@)
    }
}

impl FromJson for TransactionsResult {
    open spec fn decoded(j: JsonValue) -> Option<Seq<TransactionView>> {
        match j.field("transactions"@) {
            Some(list) => decoded_items::<Transaction>(list),
            None => None,
        }
    }

    fn from_json(j: &Json) -> (r: Option<Self>) {
        let list = j.get("transactions")?;
        let transactions = items_from_json::<Transaction>(list)?;
        Some(TransactionsResult { transactions })
    }
}

/// Payment method for wallet top-up.
#[derive(Debug, Clone, Copy, PartialEq, Eq, Structural)]
pub enum PaymentMethod {
    Bitcoin,
}

impl PaymentMethod {
    /// The name of the method on the wire.
    pub open spec fn name(self) -> Seq<char> {
        "bitcoin"@
    }

    /// The name of the method on the wire.
    pub fn to_string(&self) -> (s: String)
        ensures
            s@ == self.name(),
    {
        String::from_str("bitcoin")
    }
}

/// DNS record type.
#[derive(Debug, Clone, Copy, PartialEq, Eq, Structural)]
pub enum RecordType {
    A,
    Aaaa,
    Aname,
    Caa,
    Cname,
    Ds,
    Dynamic,
    Https,
    Mx,
    Naptr,
    Ns,
    Ptr,
    Srv,
    Sshfp,
    Svcb,
    Tlsa,
    Txt,
}

impl View for RecordType {
    type V = RecordType;

    open spec fn view(&self) -> RecordType {
        *self
    }
}

impl RecordType {
    /// The name of the type on the wire.
    pub open spec fn name(self) -> Seq<char> {
        match self {
            RecordType::A => "A"@,
            RecordType::Aaaa => "AAAA"@,
            RecordType::Aname => "ANAME"@,
            RecordType::Caa => "CAA"@,
            RecordType::Cname => "CNAME"@,
            RecordType::Ds => "DS"@,
            RecordType::Dynamic => "Dynamic"@,
            RecordType::Https => "HTTPS"@,
            RecordType::Mx => "MX"@,
            RecordType::Naptr => "NAPTR"@,
            RecordType::Ns => "NS"@,
            RecordType::Ptr => "PTR"@,
            RecordType::Srv => "SRV"@,
            RecordType::Sshfp => "SSHFP"@,
            RecordType::Svcb => "SVCB"@,
            RecordType::Tlsa => "TLSA"@,
            RecordType::Txt => "TXT"@,
        }
    }

    /// The type that `name` is the wire name of.
    pub open spec fn named(name: Seq<char>) -> Option<RecordType> {
        if name == "A"@ {
            Some(RecordType::A)
        } else if name == "AAAA"@ {
            Some(RecordType::Aaaa)
        } else if name == "ANAME"@ {
            Some(RecordType::Aname)
        } else if name == "CAA"@ {
            Some(RecordType::Caa)
        } else if name == "CNAME"@ {
            Some(RecordType::Cname)
        } else if name == "DS"@ {
            Some(RecordType::Ds)
        } else if name == "Dynamic"@ {
            Some(RecordType::Dynamic)
        } else if name == "HTTPS"@ {
            Some(RecordType::Https)
        } else if name == "MX"@ {
            Some(RecordType::Mx)
        } else if name == "NAPTR"@ {
            Some(RecordType::Naptr)
        } else if name == "NS"@ {
            Some(RecordType::Ns)
        } else if name == "PTR"@ {
            Some(RecordType::Ptr)
        } else if name == "SRV"@ {
            Some(RecordType::Srv)
        } else if name == "SSHFP"@ {
            Some(RecordType::Sshfp)
        } else if name == "SVCB"@ {
            Some(RecordType::Svcb)
        } else if name == "TLSA"@ {
            Some(RecordType::Tlsa)
        } else if name == "TXT"@ {
            Some(RecordType::Txt)
        } else {
            None
        }
    }

    /// The name of the type on the wire.
    pub fn as_str(&self) -> (s: &'static str)
        ensures
            s@ == self.name(),
    {
        match self {
            RecordType::A => "A",
            RecordType::Aaaa => "AAAA",
            RecordType::Aname => "ANAME",
            RecordType::Caa => "CAA",
            RecordType::Cname => "CNAME",
            RecordType::Ds => "DS",
            RecordType::Dynamic => "Dynamic",
            RecordType::Https => "HTTPS",
            RecordType::Mx => "MX",
            RecordType::Naptr => "NAPTR",
            RecordType::Ns => "NS",
            RecordType::Ptr => "PTR",
            RecordType::Srv => "SRV",
            RecordType::Sshfp => "SSHFP",
            RecordType::Svcb => "SVCB",
            RecordType::Tlsa => "TLSA",
            RecordType::Txt => "TXT",
        }
    }

    /// The name of the type on the wire.
    pub fn to_string(&self) -> (s: String)
        ensures
            s@ == self.name(),
    {
        String::from_str(self.as_str())
    }

    /// The type that `name` is the wire name of.
    pub fn from_name(name: &str) -> (r: Option<RecordType>)
        ensures
            r == RecordType::named(name@),
    {
        if str_eq(name, "A") {
            Some(RecordType::A)
        } else if str_eq(name, "AAAA") {
            Some(RecordType::Aaaa)
        } else if str_eq(name, "ANAME") {
            Some(RecordType::Aname)
        } else if str_eq(name, "CAA") {
            Some(RecordType::Caa)
        } else if str_eq(name, "CNAME") {
            Some(RecordType::Cname)
        } else if str_eq(name, "DS") {
            Some(RecordType::Ds)
        } else if str_eq(name, "Dynamic") {
            Some(RecordType::Dynamic)
        } else if str_eq(name, "HTTPS") {
            Some(RecordType::Https)
        } else if str_eq(name, "MX") {
            Some(RecordType::Mx)
        } else if str_eq(name, "NAPTR") {
            Some(RecordType::Naptr)
        } else if str_eq(name, "NS") {
            Some(RecordType::Ns)
        } else if str_eq(name, "PTR") {
            Some(RecordType::Ptr)
        } else if str_eq(name, "SRV") {
            Some(RecordType::Srv)
        } else if str_eq(name, "SSHFP") {
            Some(RecordType::Sshfp)
        } else if str_eq(name, "SVCB") {
            Some(RecordType::Svcb)
        } else if str_eq(name, "TLSA") {
            Some(RecordType::Tlsa)
        } else if str_eq(name, "TXT") {
            Some(RecordType::Txt)
        } else {
            None
        }
    }
}

/// Each record type is the one that its wire name names.
pub proof fn lemma_record_type_round_trip(t: RecordType)
    ensures
        RecordType::named(t.name()) == Some(t),
{
    reveal_strlit("A");
    reveal_strlit("AAAA");
    reveal_strlit("ANAME");
    reveal_strlit("CAA");
    reveal_strlit("CNAME");
    reveal_strlit("DS");
    reveal_strlit("Dynamic");
    reveal_strlit("HTTPS");
    reveal_strlit("MX");
    reveal_strlit("NAPTR");
    reveal_strlit("NS");
    reveal_strlit("PTR");
    reveal_strlit("SRV");
    reveal_strlit("SSHFP");
    reveal_strlit("SVCB");
    reveal_strlit("TLSA");
    reveal_strlit("TXT");
    assert("A"@.len() == 1);
    assert("AAAA"@.len() == 4);
    assert("ANAME"@.len() == 5);
    assert("CAA"@.len() == 3);
    assert("CNAME"@.len() == 5);
    assert("DS"@.len() == 2);
    assert("Dynamic"@.len() == 7);
    assert("HTTPS"@.len() == 5);
    assert("MX"@.len() == 2);
    assert("NAPTR"@.len() == 5);
    assert("NS"@.len() == 2);
    assert("PTR"@.len() == 3);
    assert("SRV"@.len() == 3);
    assert("SSHFP"@.len() == 5);
    assert("SVCB"@.len() == 4);
    assert("TLSA"@.len() == 4);
    assert("TXT"@.len() == 3);
    assert("CNAME"@[0] != "ANAME"@[0]);
    assert("HTTPS"@[0] != "ANAME"@[0]);
    assert("HTTPS"@[0] != "CNAME"@[0]);
    assert("MX"@[0] != "DS"@[0]);
    assert("NAPTR"@[0] != "ANAME"@[0]);
    assert("NAPTR"@[0] != "CNAME"@[0]);
    assert("NAPTR"@[0] != "HTTPS"@[0]);
    assert("NS"@[0] != "DS"@[0]);
    assert("NS"@[0] != "MX"@[0]);
    assert("PTR"@[0] != "CAA"@[0]);
    assert("SRV"@[0] != "CAA"@[0]);
    assert("SRV"@[0] != "PTR"@[0]);
    assert("SSHFP"@[0] != "ANAME"@[0]);
    assert("SSHFP"@[0] != "CNAME"@[0]);
    assert("SSHFP"@[0] != "HTTPS"@[0]);
    assert("SSHFP"@[0] != "NAPTR"@[0]);
    assert("SVCB"@[0] != "AAAA"@[0]);
    assert("TLSA"@[0] != "AAAA"@[0]);
    assert("TLSA"@[0] != "SVCB"@[0]);
    assert("TXT"@[0] != "CAA"@[0]);
    assert("TXT"@[0] != "PTR"@[0]);
    assert("TXT"@[0] != "SRV"@[0]);
}

impl FromJson for RecordType {
    open spec fn decoded(j: JsonValue) -> Option<RecordType> {
        match j {
            JsonValue::Text(name) => RecordType::named(name),
            _ => None,
        }
    }

    fn from_json(j: &Json) -> (r: Option<Self>) {
        match j {
            Json::Text(name) => RecordType::from_name(name.as_str()),
            _ => None,
        }
    }
}

/// DNS record.
#[derive(Debug, Clone)]
pub struct Record {
    /// Record ID.
    pub id: String,
    /// Record name (e.g., "@", "www").
    pub name: String,
    /// Record type (e.g., A, AAAA, CNAME).
    pub record_type: RecordType,
    /// Record content/value.
    pub content: Option<String>,
    /// Time to live in seconds.
    pub ttl: Option<i32>,
    /// Priority (for MX, SRV, HTTPS, SVCB records).
    pub priority: Option<i32>,
    /// Weight (SRV records only).
    pub weight: Option<i32>,
    /// Port (SRV records only).
    pub port: Option<i32>,
    /// Target (HTTPS, SVCB records only).
    pub target: Option<String>,
    /// Value/SvcParams (HTTPS, SVCB records only).
    pub value: Option<String>,
    /// SSH algorithm (SSHFP records only, 1-5: RSA, DSA, ECDSA, Ed25519, XMSS).
    pub ssh_algorithm: Option<i32>,
    /// SSH fingerprint type (SSHFP records only, 1-2: SHA-1, SHA-256).
    pub ssh_type: Option<i32>,
}

/// What a `Record` holds, as contracts see it.
pub ghost struct RecordView {
    pub id: Seq<char>,
    pub name: Seq<char>,
    pub record_type: RecordType,
    pub content: Option<Seq<char>>,
    pub ttl: Option<int>,
    pub priority: Option<int>,
    pub weight: Option<int>,
    pub port: Option<int>,
    pub target: Option<Seq<char>>,
    pub value: Option<Seq<char>>,
    pub ssh_algorithm: Option<int>,
    pub ssh_type: Option<int>,
}

impl View for Record {
    type V = RecordView;

    open spec fn view(&self) -> RecordView {
        RecordView {
            id: self.id@,
            name: self.name@,
            record_type: self.record_type,
            content: text_view(self.content),
            ttl: int_view(self.ttl),
            priority: int_view(self.priority),
            weight: int_view(self.weight),
            port: int_view(self.port),
            target: text_view(self.target),
            value: text_view(self.value),
            ssh_algorithm: int_view(self.ssh_algorithm),
            ssh_type: int_view(self.ssh_type),
        }
    }
}

/// The record type that the member `type` of `j` names.
pub open spec fn record_type_of(j: JsonValue) -> Option<RecordType> {
    match j.field("type"@) {
        Some(v) => RecordType::decoded(v),
        None => None,
    }
}

impl FromJson for Record {
    open spec fn decoded(j: JsonValue) -> Option<RecordView> {
        if j.required_text("id"@) is Some
            && j.required_text("name"@) is Some
            && record_type_of(j) is Some
            && j.optional_text("content"@) is Some
            && j.optional_int32("ttl"@) is Some
            && j.optional_int32("prio"@) is Some
            && j.optional_int32("weight"@) is Some
            && j.optional_int32("port"@) is Some
            && j.optional_text("target"@) is Some
            && j.optional_text("value"@) is Some
            && j.optional_int32("ssh_algorithm"@) is Some
            && j.optional_int32("ssh_type"@) is Some {
            Some(
                RecordView {
                    id: j.required_text("id"@).unwrap(),
                    name: j.required_text("name"@).unwrap(),
                    record_type: record_type_of(j).unwrap(),
                    content: j.optional_text("content"@).unwrap(),
                    ttl: j.optional_int32("ttl"@).unwrap(),
                    priority: j.optional_int32("prio"@).unwrap(),
                    weight: j.optional_int32("weight"@).unwrap(),
                    port: j.optional_int32("port"@).unwrap(),
                    target: j.optional_text("target"@).unwrap(),
                    value: j.optional_text("value"@).unwrap(),
                    ssh_algorithm: j.optional_int32("ssh_algorithm"@).unwrap(),
                    ssh_type: j.optional_int32("ssh_type"@).unwrap(),
                },
            )
        } else {
            None
        }
    }

    fn from_json(j: &Json) -> (r: Option<Self>) {
        let id = j.required_text("id")?;
        let name = j.required_text("name")?;
        let record_type = RecordType::from_json(j.get("type")?)?;
        let content = j.optional_text("content")?;
        let ttl = j.optional_int32("ttl")?;
        let priority = j.optional_int32("prio")?;
        let weight = j.optional_int32("weight")?;
        let port = j.optional_int32("port")?;
        let target = j.optional_text("target")?;
        let value = j.optional_text("value")?;
        let ssh_algorithm = j.optional_int32("ssh_algorithm")?;
        let ssh_type = j.optional_int32("ssh_type")?;
        Some(
            Record {
                id,
                name,
                record_type,
                content,
                ttl,
                priority,
                weight,
                port,
                target,
                value,
                ssh_algorithm,
                ssh_type,
            },
        )
    }
}

/// Response for `list-records`.
#[derive(Debug)]
pub struct RecordsResult {
    /// List of DNS records.
    pub records: Vec<Record>,
}

impl View for RecordsResult {
    type V = Seq<RecordView>;

    open spec fn view(&self) -> Seq<RecordView> {
        views(self.records@)
    }
}

impl FromJson for RecordsResult {
    open spec fn decoded(j: JsonValue) -> Option<Seq<RecordView>> {
        match j.field("records"@) {
            Some(list) => decoded_items::<Record>(list),
            None => None,
        }
    }

    fn from_json(j: &Json) -> (r: Option<Self>) {
        let list = j.get("records")?;
        let records = items_from_json::<Record>(list)?;
        Some(RecordsResult { records })
    }
}

/// Parameters for adding a DNS record.
#[derive(Debug, Clone)]
pub struct AddRecordParams {
    /// Domain name.
    pub domain: String,
    /// Record type.
    pub record_type: RecordType,
    /// Record name (e.g., "@", "www").
    pub name: String,
    /// Record content/value.
    pub content: Option<String>,
    /// TTL in seconds.
    pub ttl: Option<i32>,
    /// Priority (MX, SRV, HTTPS, SVCB).
    pub priority: Option<i32>,
    /// Weight (SRV only).
    pub weight: Option<i32>,
    /// Port (SRV only).
    pub port: Option<i32>,
    /// Target (HTTPS, SVCB only).
    pub target: Option<String>,
    /// Value/SvcParams (HTTPS, SVCB only).
    pub value: Option<String>,
    /// SSH algorithm (SSHFP only, 1-5).
    pub ssh_algorithm: Option<i32>,
    /// SSH fingerprint type (SSHFP only, 1-2).
    pub ssh_type: Option<i32>,
}

impl AddRecordParams {
    /// The members of the parameter object of `add-record`: the domain, the
    /// type and the name, and each of the others that has a value.
    pub open spec fn wire(&self) -> Map<Seq<char>, JsonValue> {
        let fields = no_fields().insert("domain"@, JsonValue::Text(self.domain@));
        let fields = fields.insert("type"@, JsonValue::Text(self.record_type.name()));
        let fields = fields.insert("name"@, JsonValue::Text(self.name@));
        let fields = with_text(fields, "content"@, text_view(self.content));
        let fields = with_integer(fields, "ttl"@, int_view(self.ttl));
        let fields = with_integer(fields, "prio"@, int_view(self.priority));
        let fields = with_integer(fields, "weight"@, int_view(self.weight));
        let fields = with_integer(fields, "port"@, int_view(self.port));
        let fields = with_text(fields, "target"@, text_view(self.target));
        let fields = with_text(fields, "value"@, text_view(self.value));
        let fields = with_integer(fields, "ssh_algorithm"@, int_view(self.ssh_algorithm));
        let fields = with_integer(fields, "ssh_type"@, int_view(self.ssh_type));
        fields
    }

    /// The parameter object of `add-record`.
    pub fn to_json(&self) -> (j: Json)
        ensures
            j@ == JsonValue::Object(self.wire()),
    {
        let mut members: Vec<Member> = Vec::new();
        proof {
            lemma_fields_empty();
        }
        push_text(&mut members, "domain", self.domain.as_str());
        push_text(&mut members, "type", self.record_type.as_str());
        push_text(&mut members, "name", self.name.as_str());
        push_optional_text(&mut members, "content", &self.content);
        push_optional_integer(&mut members, "ttl", self.ttl);
        push_optional_integer(&mut members, "prio", self.priority);
        push_optional_integer(&mut members, "weight", self.weight);
        push_optional_integer(&mut members, "port", self.port);
        push_optional_text(&mut members, "target", &self.target);
        push_optional_text(&mut members, "value", &self.value);
        push_optional_integer(&mut members, "ssh_algorithm", self.ssh_algorithm);
        push_optional_integer(&mut members, "ssh_type", self.ssh_type);
        object(members)
    }
}

/// Parameters for editing a DNS record.
#[derive(Debug, Clone)]
pub struct EditRecordParams {
    /// Domain name.
    pub domain: String,
    /// Record ID.
    pub id: String,
    /// Record name (e.g., "@", "www").
    pub name: Option<String>,
    /// Record content/value.
    pub content: Option<String>,
    /// TTL in seconds.
    pub ttl: Option<i32>,
    /// Priority (MX, SRV, HTTPS, SVCB).
    pub priority: Option<i32>,
    /// Weight (SRV only).
    pub weight: Option<i32>,
    /// Port (SRV only).
    pub port: Option<i32>,
    /// Target (HTTPS, SVCB only).
    pub target: Option<String>,
    /// Value/SvcParams (HTTPS, SVCB only).
    pub value: Option<String>,
    /// SSH algorithm (SSHFP only, 1-5).
    pub ssh_algorithm: Option<i32>,
    /// SSH fingerprint type (SSHFP only, 1-2).
    pub ssh_type: Option<i32>,
}

impl EditRecordParams {
    /// The members of the parameter object of `edit-record`: the domain and
    /// the record's id, and each of the others that has a value.
    pub open spec fn wire(&self) -> Map<Seq<char>, JsonValue> {
        let fields = no_fields().insert("domain"@, JsonValue::Text(self.domain@));
        let fields = fields.insert("id"@, JsonValue::Text(self.id@));
        let fields = with_text(fields, "name"@, text_view(self.name));
        let fields = with_text(fields, "content"@, text_view(self.content));
        let fields = with_integer(fields, "ttl"@, int_view(self.ttl));
        let fields = with_integer(fields, "prio"@, int_view(self.priority));
        let fields = with_integer(fields, "weight"@, int_view(self.weight));
        let fields = with_integer(fields, "port"@, int_view(self.port));
        let fields = with_text(fields, "target"@, text_view(self.target));
        let fields = with_text(fields, "value"@, text_view(self.value));
        let fields = with_integer(fields, "ssh_algorithm"@, int_view(self.ssh_algorithm));
        let fields = with_integer(fields, "ssh_type"@, int_view(self.ssh_type));
        fields
    }

    /// The parameter object of `edit-record`.
    pub fn to_json(&self) -> (j: Json)
        ensures
            j@ == JsonValue::Object(self.wire()),
    {
        let mut members: Vec<Member> = Vec::new();
        proof {
            lemma_fields_empty();
        }
        push_text(&mut members, "domain", self.domain.as_str());
        push_text(&mut members, "id", self.id.as_str());
        push_optional_text(&mut members, "name", &self.name);
        push_optional_text(&mut members, "content", &self.content);
        push_optional_integer(&mut members, "ttl", self.ttl);
        push_optional_integer(&mut members, "prio", self.priority);
        push_optional_integer(&mut members, "weight", self.weight);
        push_optional_integer(&mut members, "port", self.port);
        push_optional_text(&mut members, "target", &self.target);
        push_optional_text(&mut members, "value", &self.value);
        push_optional_integer(&mut members, "ssh_algorithm", self.ssh_algorithm);
        push_optional_integer(&mut members, "ssh_type", self.ssh_type);
        object(members)
    }
}

/// API request body (JSON-RPC style).
#[derive(Debug)]
pub struct ApiRequest {
    /// API method name.
    pub method: String,
    /// Method parameters.
    pub params: Json,
}

/// What a `ApiRequest` holds, as contracts see it.
pub ghost struct ApiRequestView {
    pub method: Seq<char>,
    pub params: JsonValue,
}

impl View for ApiRequest {
    type V = ApiRequestView;

    open spec fn view(&self) -> ApiRequestView {
        ApiRequestView { method: self.method@, params: self.params@ }
    }
}

/// The request object on the wire: the method's name under `method` and its
/// parameters under `params`.
pub open spec fn request_object(method: Seq<char>, params: JsonValue) -> JsonValue {
    JsonValue::Object(
        no_fields().insert("method"@, JsonValue::Text(method)).insert(
            "params"@,
            params,
        ),
    )
}

impl ApiRequest {
    /// The request as a JSON value.
    pub fn into_json(self) -> (j: Json)
        ensures
            j@ == request_object(self.method@, self.params@),
    {
        let mut members: Vec<Member> = Vec::new();
        proof {
            lemma_fields_empty();
        }
        push_text(&mut members, "method", self.method.as_str());
        push_value(&mut members, "params", self.params);
        object(members)
    }
}

} // verus!
