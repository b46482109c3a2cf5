use mutiny_core::json::{Json, Member};
use mutiny_core::key::PublicKey;
use mutiny_core::payment::{HTLCStatus, MillisatAmount, PaymentInfo, PaymentPurpose};
use mutiny_core::record::RecordError;
use serde_json::Value;
use std::time::{SystemTime, UNIX_EPOCH};

const PAYEE: &str = "02465ed5be53d04fde66c9418ff14a5f2267723810176c9212b722e542dc1afb1b";

fn to_serde(json: &Json) -> Value {
    match json {
        Json::Null => Value::Null,
        Json::Bool(b) => Value::Bool(*b),
        Json::Unsigned(n) => Value::from(*n),
        Json::Number(text) => serde_json::from_str(text).unwrap(),
        Json::Text(text) => Value::String(text.clone()),
        Json::List(items) => Value::Array(items.iter().map(to_serde).collect()),
        Json::Object(members) => Value::Object(
            members.iter().map(|m| (m.name.clone(), to_serde(&m.value))).collect(),
        ),
    }
}

fn from_serde(value: Value) -> Json {
    match value {
        Value::Null => Json::Null,
        Value::Bool(b) => Json::Bool(b),
        Value::Number(n) => match n.as_u64() {
            Some(n) => Json::Unsigned(n),
            None => Json::Number(n.to_string()),
        },
        Value::String(text) => Json::Text(text),
        Value::Array(items) => Json::List(items.into_iter().map(from_serde).collect()),
        Value::Object(map) => Json::Object(
            map.into_iter()
                .map(|(name, value)| Member { name, value: from_serde(value) })
                .collect(),
        ),
    }
}

fn to_string(info: &PaymentInfo) -> String {
    serde_json::to_string(&to_serde(&info.to_value())).unwrap()
}

fn from_str(text: &str) -> Result<PaymentInfo, RecordError> {
    PaymentInfo::from_value(&from_serde(serde_json::from_str(text).unwrap()))
}

fn key() -> PublicKey {
    PublicKey::parse(PAYEE).unwrap()
}

fn full() -> PaymentInfo {
    PaymentInfo {
        preimage: Some([7; 32]),
        secret: Some([255; 32]),
        status: HTLCStatus::InFlight,
        amt_msat: MillisatAmount(Some(u64::MAX)),
        fee_paid_msat: Some(0),
        bolt11: Some("lnbc\"1\u{e9}".to_string()),
        payee_pubkey: Some(key()),
        last_update: 1,
    }
}

fn bare() -> PaymentInfo {
    PaymentInfo {
        preimage: None,
        secret: None,
        status: HTLCStatus::Pending,
        amt_msat: MillisatAmount(Some(5)),
        fee_paid_msat: None,
        bolt11: None,
        payee_pubkey: None,
        last_update: 0,
    }
}

#[test]
fn test_payment_info_serialization_symmetry() {
    let preimage = [1; 32];
    let pubkey = PublicKey::parse(
        "02465ed5be53d04fde66c9418ff14a5f2267723810176c9212b722e542dc1afb1b",
    )
    .unwrap();

    let payment_info = PaymentInfo {
        preimage: Some(preimage),
        status: HTLCStatus::Succeeded,
        amt_msat: MillisatAmount(Some(420)),
        fee_paid_msat: None,
        bolt11: None,
        payee_pubkey: Some(pubkey),
        secret: None,
        last_update: SystemTime::now().duration_since(UNIX_EPOCH).unwrap().as_secs(),
    };

    let serialized = serde_json::to_string(&to_serde(&payment_info.to_value())).unwrap();
    let deserialized: PaymentInfo =
        PaymentInfo::from_value(&from_serde(serde_json::from_str(&serialized).unwrap())).unwrap();
    assert_eq!(payment_info, deserialized);

    let serialized = payment_info.to_value();
    let deserialized: PaymentInfo = PaymentInfo::from_value(&serialized).unwrap();
    assert_eq!(payment_info, deserialized);
}

#[test]
fn records_are_read_back() {
    let statuses =
        [HTLCStatus::Pending, HTLCStatus::InFlight, HTLCStatus::Succeeded, HTLCStatus::Failed];
    for status in statuses {
        for info in [full(), bare()] {
            let info = PaymentInfo { status, ..info };
            assert_eq!(from_str(&to_string(&info)), Ok(info.clone()));
            assert_eq!(PaymentInfo::from_value(&info.to_value()), Ok(info));
        }
    }
}

#[test]
fn members_stand_in_the_order_of_the_fields() {
    let names = |info: &PaymentInfo| -> Vec<String> {
        match info.to_value() {
            Json::Object(members) => members.into_iter().map(|m| m.name).collect(),
            other => panic!("no object: {:?}", other),
        }
    };
    assert_eq!(
        names(&full()),
        [
            "preimage",
            "secret",
            "status",
            "amt_msat",
            "fee_paid_msat",
            "bolt11",
            "payee_pubkey",
            "last_update"
        ]
    );
    assert_eq!(names(&bare()), ["status", "amt_msat", "last_update"]);
}

#[test]
fn exact_text_of_a_record() {
    assert_eq!(
        to_string(&bare()),
        "{\"amt_msat\":5,\"last_update\":0,\"status\":\"Pending\"}"
    );
    let info = PaymentInfo { preimage: Some([1; 32]), payee_pubkey: Some(key()), ..bare() };
    let ones = vec!["1"; 32].join(",");
    assert_eq!(
        to_string(&info),
        format!(
            "{{\"amt_msat\":5,\"last_update\":0,\"payee_pubkey\":\"{}\",\"preimage\":[{}],\"status\":\"Pending\"}}",
            PAYEE, ones
        )
    );
}

#[test]
fn record_without_amount_is_not_read_back() {
    let info = PaymentInfo { amt_msat: MillisatAmount(None), ..full() };
    assert_eq!(PaymentInfo::from_value(&info.to_value()), Err(RecordError));
    assert_eq!(
        from_str("{\"amt_msat\":null,\"last_update\":0,\"status\":\"Pending\"}"),
        Ok(PaymentInfo { amt_msat: MillisatAmount(None), ..bare() })
    );
}

#[test]
fn unknown_members_and_nulls_are_passed_over() {
    let text = "{\"status\":\"Pending\",\"extra\":{\"a\":[1.5,-2]},\"last_update\":0,\
        \"bolt11\":null,\"amt_msat\":5,\"preimage\":null}";
    assert_eq!(from_str(text), Ok(bare()));
}

#[test]
fn status_may_be_an_object() {
    let text = "{\"amt_msat\":5,\"last_update\":0,\"status\":{\"Pending\":null}}";
    assert_eq!(from_str(text), Ok(bare()));
    let text = "{\"amt_msat\":5,\"last_update\":0,\"status\":{\"Pending\":1}}";
    assert_eq!(from_str(text), Err(RecordError));
    let text = "{\"amt_msat\":5,\"last_update\":0,\"status\":\"Lost\"}";
    assert_eq!(from_str(text), Err(RecordError));
}

#[test]
fn record_may_be_a_list() {
    assert_eq!(from_str("[null,null,\"Pending\",5,null,null,null,0]"), Ok(bare()));
    assert_eq!(from_str("[null,null,\"Pending\",5,null,null,null]"), Err(RecordError));
    assert_eq!(from_str("[null,null,\"Pending\",5,null,null,null,0,0]"), Err(RecordError));
}

#[test]
fn malformed_records_are_refused() {
    let with = |member: &str| -> String {
        format!("{{\"amt_msat\":5,\"last_update\":0,\"status\":\"Pending\",{}}}", member)
    };
    assert_eq!(from_str(&with("\"fee_paid_msat\":7")), Ok(PaymentInfo {
        fee_paid_msat: Some(7),
        ..bare()
    }));
    for member in [
        "\"fee_paid_msat\":-1",
        "\"fee_paid_msat\":1.0",
        "\"fee_paid_msat\":\"7\"",
        "\"bolt11\":7",
        "\"payee_pubkey\":\"00\"",
        "\"payee_pubkey\":7",
        "\"preimage\":[1,2]",
        "\"preimage\":\"aa\"",
    ] {
        assert_eq!(from_str(&with(member)), Err(RecordError));
    }
    let large = vec!["256"; 32].join(",");
    assert_eq!(from_str(&with(&format!("\"secret\":[{}]", large))), Err(RecordError));
    assert_eq!(from_str("{\"amt_msat\":5,\"status\":\"Pending\"}"), Err(RecordError));
    assert_eq!(from_str("{\"amt_msat\":5,\"last_update\":0}"), Err(RecordError));
    assert_eq!(from_str("7"), Err(RecordError));
}

#[test]
fn repeated_members_are_refused() {
    let member = |name: &str, value: Json| Member { name: name.to_string(), value };
    let twice = |name: &str| {
        Json::Object(vec![
            member("status", Json::Text("Pending".to_string())),
            member("amt_msat", Json::Unsigned(5)),
            member("last_update", Json::Unsigned(0)),
            member(name, Json::Null),
            member(name, Json::Null),
        ])
    };
    assert_eq!(PaymentInfo::from_value(&twice("bolt11")), Err(RecordError));
    assert_eq!(PaymentInfo::from_value(&twice("note")), Ok(bare()));
}

#[test]
fn members_may_stand_in_any_order() {
    let mut value = full().to_value();
    if let Json::Object(members) = &mut value {
        members.reverse();
        members.swap(1, 5);
    }
    assert_eq!(PaymentInfo::from_value(&value), Ok(full()));
}

#[test]
fn records_of_claimed_payments_are_kept() {
    let unknown_amount = PaymentInfo { amt_msat: MillisatAmount(None), ..full() };
    for saved in [None, Some(bare()), Some(unknown_amount)] {
        let purpose = PaymentPurpose::SpontaneousPayment([3; 32]);
        let info = PaymentInfo::claimed(saved, Some(key()), purpose, 9, 10);
        assert_eq!(from_str(&to_string(&info)), Ok(info));
    }
}

#[test]
fn records_of_outgoing_payments_are_kept() {
    let sent = PaymentInfo::sent(bare(), [4; 32], Some(2), 11);
    assert_eq!(from_str(&to_string(&sent)), Ok(sent));
    let failed = PaymentInfo::failed(full(), 12);
    assert_eq!(from_str(&to_string(&failed)), Ok(failed));
}
