use njalla_cli::json::Json;
use njalla_cli::types::{
    ApiRequest, Domain, FromJson, MarketDomain, Payment, PaymentMethod, Record, RecordType,
    Transaction, WalletBalance,
};

fn parse(text: &str) -> Json {
    Json::parse(text).unwrap()
}

#[test]
fn deserialize_domain() {
    let json = r#"{
            "name": "example.com",
            "status": "active",
            "expiry": "2027-01-15T00:00:00Z",
            "locked": false
        }"#;

    let domain = Domain::from_json(&parse(json)).unwrap();
    assert_eq!(domain.name, "example.com");
    assert_eq!(domain.status, "active");
    assert_eq!(domain.locked, Some(false));
}

#[test]
fn deserialize_market_domain() {
    let json = r#"{
            "name": "example.com",
            "status": "available",
            "price": 15
        }"#;

    let domain = MarketDomain::from_json(&parse(json)).unwrap();
    assert_eq!(domain.name, "example.com");
    assert_eq!(domain.status, "available");
    assert_eq!(domain.price, 15);
}

#[test]
fn deserialize_record() {
    let json = r#"{
            "id": "12345",
            "name": "@",
            "type": "A",
            "content": "192.0.2.1",
            "ttl": 10800,
            "prio": null
        }"#;

    let record = Record::from_json(&parse(json)).unwrap();
    assert_eq!(record.id, "12345");
    assert_eq!(record.record_type, RecordType::A);
    assert_eq!(record.ttl, Some(10800));
    assert!(record.priority.is_none());
}

#[test]
fn deserialize_record_srv() {
    let json = r#"{
            "id": "12346",
            "name": "_sip._tcp",
            "type": "SRV",
            "content": "sipserver.example.com",
            "ttl": 3600,
            "prio": 10,
            "weight": 5,
            "port": 5060
        }"#;

    let record = Record::from_json(&parse(json)).unwrap();
    assert_eq!(record.id, "12346");
    assert_eq!(record.record_type, RecordType::Srv);
    assert_eq!(record.priority, Some(10));
    assert_eq!(record.weight, Some(5));
    assert_eq!(record.port, Some(5060));
}

#[test]
fn deserialize_record_dynamic() {
    let json = r#"{
            "id": "12347",
            "name": "home",
            "type": "Dynamic"
        }"#;

    let record = Record::from_json(&parse(json)).unwrap();
    assert_eq!(record.id, "12347");
    assert_eq!(record.record_type, RecordType::Dynamic);
    assert!(record.content.is_none());
    assert!(record.ttl.is_none());
}

#[test]
fn record_type_display() {
    assert_eq!(RecordType::A.to_string(), "A");
    assert_eq!(RecordType::Aaaa.to_string(), "AAAA");
    assert_eq!(RecordType::Mx.to_string(), "MX");
    assert_eq!(RecordType::Dynamic.to_string(), "Dynamic");
    assert_eq!(RecordType::Sshfp.to_string(), "SSHFP");
}

#[test]
fn record_type_serialize() {
    assert_eq!(Json::Text(RecordType::A.to_string()).to_text().unwrap(), "\"A\"");
    assert_eq!(Json::Text(RecordType::Aaaa.to_string()).to_text().unwrap(), "\"AAAA\"");
    assert_eq!(Json::Text(RecordType::Dynamic.to_string()).to_text().unwrap(), "\"Dynamic\"");
}

#[test]
fn serialize_api_request() {
    let req = ApiRequest { method: "list-domains".to_string(), params: Json::Object(Vec::new()) };

    let json = req.into_json().to_text().unwrap();
    assert!(json.contains("list-domains"));
}

#[test]
fn payment_method_display() {
    assert_eq!(PaymentMethod::Bitcoin.to_string(), "bitcoin");
}

#[test]
fn deserialize_wallet_balance() {
    let json = r#"{"balance": 100}"#;
    let balance = WalletBalance::from_json(&parse(json)).unwrap();
    assert_eq!(balance.balance, 100);
}

#[test]
fn deserialize_payment() {
    let json = r#"{
            "id": "pay123",
            "amount": 15,
            "currency": "EUR",
            "amount_btc": "0.0002564",
            "status": "Waiting for transaction of 15 € via Bitcoin to be confirmed",
            "address": "bc1qtest",
            "uri": "bitcoin:bc1qtest?amount=0.0002564"
        }"#;
    let payment = Payment::from_json(&parse(json)).unwrap();
    assert_eq!(payment.id, Some("pay123".to_string()));
    assert_eq!(payment.amount, 15);
    assert_eq!(payment.currency, Some("EUR".to_string()));
    assert_eq!(payment.amount_btc, Some("0.0002564".to_string()));
    assert_eq!(
        payment.status,
        Some("Waiting for transaction of 15 € via Bitcoin to be confirmed".to_string())
    );
    assert_eq!(payment.address, Some("bc1qtest".to_string()));
    assert_eq!(payment.uri, Some("bitcoin:bc1qtest?amount=0.0002564".to_string()));
    assert!(payment.url.is_none());
}

#[test]
fn deserialize_transaction_completed() {
    let json = r#"{
            "id": "IKSELBVIY5JW4UAER7PGLFEPSGHOJNB7",
            "amount": 210,
            "status": "Added 210 € via Bitcoin",
            "completed": "2026-02-01",
            "pdf": "https://njal.la/invoice/IKSELBVIY5JW4UAER7PGLFEPSGHOJNB7/"
        }"#;
    let tx = Transaction::from_json(&parse(json)).unwrap();
    assert_eq!(tx.id, "IKSELBVIY5JW4UAER7PGLFEPSGHOJNB7");
    assert_eq!(tx.amount, 210);
    assert_eq!(tx.status, "Added 210 € via Bitcoin");
    assert_eq!(tx.completed, Some("2026-02-01".to_string()));
    assert!(tx.pdf.is_some());
}

#[test]
fn deserialize_transaction_pending() {
    let json = r#"{
            "id": "4S4IQTHCP3URAUMYUXCY4UTUGU666CVK",
            "amount": 15,
            "status": "Waiting for transaction of 15 € via Bitcoin to be confirmed",
            "uri": "bitcoin:bc1qtest?amount=0.0002539",
            "address": "bc1qtest",
            "currency": "EUR",
            "amount_btc": "0.0002539"
        }"#;
    let tx = Transaction::from_json(&parse(json)).unwrap();
    assert_eq!(tx.id, "4S4IQTHCP3URAUMYUXCY4UTUGU666CVK");
    assert_eq!(tx.amount, 15);
    assert!(tx.uri.is_some());
    assert!(tx.completed.is_none());
}
