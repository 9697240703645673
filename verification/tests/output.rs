use njalla_cli::output::{
    count_available, currency_symbol, payment_status_color, status_color, OutputFormat,
    StatusColor,
};
use njalla_cli::types::MarketDomain;

#[test]
fn output_format_from_str() {
    assert_eq!("json".parse::<OutputFormat>().unwrap(), OutputFormat::Json);
    assert_eq!("JSON".parse::<OutputFormat>().unwrap(), OutputFormat::Json);
    assert_eq!("table".parse::<OutputFormat>().unwrap(), OutputFormat::Table);
    assert_eq!("anything".parse::<OutputFormat>().unwrap(), OutputFormat::Table);
}

#[test]
fn output_format_parse_ignores_case() {
    assert_eq!(OutputFormat::parse("Json"), OutputFormat::Json);
    assert_eq!(OutputFormat::parse("jSoN"), OutputFormat::Json);
    assert_eq!(OutputFormat::parse(""), OutputFormat::Table);
    assert_eq!(OutputFormat::parse(" json"), OutputFormat::Table);
}

#[test]
fn output_format_from_lowercase_is_exact() {
    assert_eq!(OutputFormat::from_lowercase("json"), OutputFormat::Json);
    assert_eq!(OutputFormat::from_lowercase("JSON"), OutputFormat::Table);
}

#[test]
fn status_colors() {
    assert_eq!(status_color("active"), StatusColor::Green);
    assert_eq!(status_color("pending"), StatusColor::Yellow);
    assert_eq!(status_color("expired"), StatusColor::Red);
    assert_eq!(status_color(""), StatusColor::Red);
}

fn market(name: &str, status: &str, price: i32) -> MarketDomain {
    MarketDomain { name: name.to_string(), status: status.to_string(), price }
}

#[test]
fn counts_available_domains() {
    let domains = vec![
        market("example.com", "available", 15),
        market("example.net", "taken", 15),
        market("example.org", "available", 18),
    ];
    assert_eq!(count_available(&domains), 2);
    assert_eq!(count_available(&Vec::new()), 0);
}

#[test]
fn currency_symbols() {
    assert_eq!(currency_symbol(&None), "€");
    assert_eq!(currency_symbol(&Some("EUR".to_string())), "€");
    assert_eq!(currency_symbol(&Some("USD".to_string())), "USD");
}

#[test]
fn payment_status_colors() {
    assert_eq!(
        payment_status_color("Waiting for transaction of 30 € via Bitcoin to be confirmed"),
        Some(StatusColor::Yellow)
    );
    assert_eq!(payment_status_color("pending"), Some(StatusColor::Yellow));
    assert_eq!(payment_status_color("completed"), Some(StatusColor::Green));
    assert_eq!(payment_status_color("paid in full"), Some(StatusColor::Green));
    assert_eq!(payment_status_color("transaction confirmed"), Some(StatusColor::Green));
    assert_eq!(payment_status_color("expired"), None);
    assert_eq!(payment_status_color(""), None);
}
