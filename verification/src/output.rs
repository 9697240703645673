//! What the output of a command depends on: the format asked for, and the
//! choices that a table makes of what it shows.

use crate::text::{contains, occurs_in, str_eq};
use crate::types::{MarketDomain, MarketDomainView, views};
use vstd::prelude::*;

verus! {

/// Output format.
#[derive(Debug, Clone, Copy, PartialEq, Eq, Structural)]
pub enum OutputFormat {
    /// Human-readable table format.
    Table,
    /// JSON format for scripting.
    Json,
}

/// What `str::to_lowercase` makes of a text.
pub uninterp spec fn lowercased(text: Seq<char>) -> Seq<char>;

/// `str::to_lowercase`: the text in lower case, as Unicode maps it. Which
/// text that is is named here, not defined.
#[verifier::external_body]
fn lowercase(text: &str) -> (lowered: String)
    ensures
        lowered@ == lowercased(text@),
{
    text.to_lowercase()
}

impl OutputFormat {
    /// The format that a name in lower case stands for: JSON for `json`, the
    /// table for any other.
    pub open spec fn named(lowered: Seq<char>) -> OutputFormat {
        if lowered == "json"@ {
            OutputFormat::Json
        } else {
            OutputFormat::Table
        }
    }

    /// The format that a name in lower case stands for.
    pub fn from_lowercase(lowered: &str) -> (format: OutputFormat)
        ensures
            format == OutputFormat::named(lowered@),
    {
        if str_eq(lowered, "json") {
            OutputFormat::Json
        } else {
            OutputFormat::Table
        }
    }

    /// The format that a name stands for, whatever its case.
    pub fn parse(name: &str) -> (format: OutputFormat)
        ensures
            format == OutputFormat::named(lowercased(name@)),
    {
        let lowered = lowercase(name);
        OutputFormat::from_lowercase(lowered.as_str())
    }
}

impl std::str::FromStr for OutputFormat {
    type Err = std::convert::Infallible;

    fn from_str(s: &str) -> (r: Result<Self, Self::Err>)
        ensures
            r matches Ok(format) && format == OutputFormat::named(lowercased(s@)),
    {
        Ok(OutputFormat::parse(s))
    }
}

/// The colour that a status is shown in.
#[derive(Debug, Clone, Copy, PartialEq, Eq, Structural)]
pub enum StatusColor {
    Green,
    Yellow,
    Red,
}

/// The colour of a domain's status: green for `active`, yellow for
/// `pending`, red for any other.
pub open spec fn status_color_of(status: Seq<char>) -> StatusColor {
    if status == "active"@ {
        StatusColor::Green
    } else if status == "pending"@ {
        StatusColor::Yellow
    } else {
        StatusColor::Red
    }
}

/// The colour of a domain's status.
pub fn status_color(status: &str) -> (color: StatusColor)
    ensures
        color == status_color_of(status@),
{
    if str_eq(status, "active") {
        StatusColor::Green
    } else if str_eq(status, "pending") {
        StatusColor::Yellow
    } else {
        StatusColor::Red
    }
}

/// The colour of a payment's status: yellow where it speaks of waiting, green
/// where it speaks of an end, none else.
pub open spec fn payment_color_of(status: Seq<char>) -> Option<StatusColor> {
    if occurs_in("Waiting"@, status) || occurs_in("pending"@, status) {
        Some(StatusColor::Yellow)
    } else if occurs_in("completed"@, status) || occurs_in("paid"@, status) || occurs_in(
        "confirmed"@,
        status,
    ) {
        Some(StatusColor::Green)
    } else {
        None
    }
}

/// The colour of a payment's status.
pub fn payment_status_color(status: &str) -> (color: Option<StatusColor>)
    ensures
        color == payment_color_of(status@),
{
    if contains(status, "Waiting") || contains(status, "pending") {
        Some(StatusColor::Yellow)
    } else if contains(status, "completed") || contains(status, "paid") || contains(
        status,
        "confirmed",
    ) {
        Some(StatusColor::Green)
    } else {
        None
    }
}

/// Whether a search result says that its domain is available.
pub open spec fn available(domain: MarketDomainView) -> bool {
    domain.status == "available"@
}

/// Whether a search result says that its domain is available.
pub fn is_available(domain: &MarketDomain) -> (yes: bool)
    ensures
        yes == available(domain@),
{
    str_eq(domain.status.as_str(), "available")
}

/// How many of the first `n` of `domains` are available.
pub open spec fn available_among(domains: Seq<MarketDomainView>, n: int) -> nat
    decreases n,
{
    if n <= 0 {
        0
    } else if available(domains[n - 1]) {
        available_among(domains, n - 1) + 1
    } else {
        available_among(domains, n - 1)
    }
}

/// How many of `domains` are available.
pub fn count_available(domains: &Vec<MarketDomain>) -> (count: usize)
    ensures
        count == available_among(views(domains@), domains@.len() as int),
{
    let mut count: usize = 0;
    let mut i: usize = 0;
    while i < domains.len()
        invariant
            i <= domains.len(),
            count <= i,
            count == available_among(views(domains@), i as int),
        decreases domains.len() - i,
    {
        if is_available(&domains[i]) {
            count = count + 1;
        }
        i = i + 1;
    }
    count
}

/// The sign that an amount in `currency` is shown with: the euro sign for
/// EUR, and for no currency at all; else the currency's own name.
pub open spec fn currency_sign(currency: Option<Seq<char>>) -> Seq<char> {
    match currency {
        Some(name) => if name == "EUR"@ {
            "€"@
        } else {
            name
        },
        None => "€"@,
    }
}

/// The sign that an amount in `currency` is shown with.
pub fn currency_symbol(currency: &Option<String>) -> (sign: String)
    ensures
        sign@ == currency_sign(
            match *currency {
                Some(name) => Some(name@),
                None => None,
            },
        ),
{
    match currency {
        Some(name) => {
            if str_eq(name.as_str(), "EUR") {
                String::from_str("€")
            } else {
                name.clone()
            }
        },
        None => String::from_str("€"),
    }
}

} // verus!
