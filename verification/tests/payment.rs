use mutiny_core::key::PublicKey;
use mutiny_core::payment::{HTLCStatus, MillisatAmount, PaymentInfo, PaymentPurpose};

const NODE: &str = "02465ed5be53d04fde66c9418ff14a5f2267723810176c9212b722e542dc1afb1b";
const OTHER: &str = "0279be667ef9dcbbac55a06295ce870b07029bfcdb2dce28d959f2815b16f81798";

fn key(text: &str) -> PublicKey {
    PublicKey::parse(text).unwrap()
}

fn saved() -> PaymentInfo {
    PaymentInfo {
        preimage: None,
        secret: Some([9; 32]),
        status: HTLCStatus::InFlight,
        amt_msat: MillisatAmount(Some(1_000)),
        fee_paid_msat: Some(3),
        bolt11: Some("lnbc1".to_string()),
        payee_pubkey: Some(key(OTHER)),
        last_update: 10,
    }
}

#[test]
fn amount_is_none() {
    assert!(MillisatAmount(None).is_none());
    assert!(!MillisatAmount(Some(0)).is_none());
    assert!(!MillisatAmount(Some(420)).is_none());
}

#[test]
fn statuses_differ() {
    assert_ne!(HTLCStatus::Pending, HTLCStatus::InFlight);
    assert_ne!(HTLCStatus::Succeeded, HTLCStatus::Failed);
}

#[test]
fn purpose_of_an_invoice() {
    let known =
        PaymentPurpose::InvoicePayment { payment_preimage: Some([1; 32]), payment_secret: [2; 32] };
    assert_eq!(known.preimage(), Some([1; 32]));
    assert_eq!(known.secret(), Some([2; 32]));
    let unknown =
        PaymentPurpose::InvoicePayment { payment_preimage: None, payment_secret: [2; 32] };
    assert_eq!(unknown.preimage(), None);
    assert_eq!(unknown.secret(), Some([2; 32]));
}

#[test]
fn purpose_of_a_spontaneous_payment() {
    let purpose = PaymentPurpose::SpontaneousPayment([3; 32]);
    assert_eq!(purpose.preimage(), Some([3; 32]));
    assert_eq!(purpose.secret(), None);
}

#[test]
fn first_record_of_a_claimed_payment() {
    let purpose =
        PaymentPurpose::InvoicePayment { payment_preimage: Some([1; 32]), payment_secret: [2; 32] };
    let info = PaymentInfo::claimed(None, Some(key(NODE)), purpose, 5_000, 77);
    assert_eq!(
        info,
        PaymentInfo {
            preimage: Some([1; 32]),
            secret: Some([2; 32]),
            status: HTLCStatus::Succeeded,
            amt_msat: MillisatAmount(Some(5_000)),
            fee_paid_msat: None,
            bolt11: None,
            payee_pubkey: Some(key(NODE)),
            last_update: 77,
        }
    );
}

#[test]
fn claim_over_an_earlier_record() {
    let purpose = PaymentPurpose::SpontaneousPayment([4; 32]);
    let info = PaymentInfo::claimed(Some(saved()), Some(key(NODE)), purpose, 5_000, 77);
    assert_eq!(
        info,
        PaymentInfo {
            preimage: Some([4; 32]),
            secret: None,
            status: HTLCStatus::Succeeded,
            amt_msat: MillisatAmount(Some(5_000)),
            last_update: 77,
            ..saved()
        }
    );
}

#[test]
fn repeated_claim_changes_only_the_time() {
    let purpose = PaymentPurpose::SpontaneousPayment([4; 32]);
    let once = PaymentInfo::claimed(Some(saved()), None, purpose, 5_000, 77);
    let twice = PaymentInfo::claimed(Some(once.clone()), None, purpose, 5_000, 88);
    assert_eq!(twice, PaymentInfo { last_update: 88, ..once });
}

#[test]
fn payment_that_arrived() {
    let info = PaymentInfo::sent(saved(), [5; 32], Some(12), 99);
    assert_eq!(
        info,
        PaymentInfo {
            preimage: Some([5; 32]),
            status: HTLCStatus::Succeeded,
            fee_paid_msat: Some(12),
            last_update: 99,
            ..saved()
        }
    );
    let without_fee = PaymentInfo::sent(saved(), [5; 32], None, 99);
    assert_eq!(without_fee.fee_paid_msat, None);
    let twice = PaymentInfo::sent(info.clone(), [5; 32], Some(12), 100);
    assert_eq!(twice, PaymentInfo { last_update: 100, ..info });
}

#[test]
fn payment_that_failed() {
    let info = PaymentInfo::failed(saved(), 99);
    assert_eq!(info, PaymentInfo { status: HTLCStatus::Failed, last_update: 99, ..saved() });
    let sent = PaymentInfo::sent(saved(), [5; 32], Some(12), 99);
    let failed = PaymentInfo::failed(sent, 100);
    assert_eq!(failed.status, HTLCStatus::Failed);
    assert_eq!(failed.preimage, Some([5; 32]));
}

#[test]
fn keys_are_read_and_written() {
    assert_eq!(key(NODE).to_hex(), NODE);
    assert_eq!(key(&NODE.to_uppercase()).to_hex(), NODE);
    assert_eq!(key(NODE).serialize()[0], 2);
    assert_eq!(key(NODE).serialize()[32], 0x1b);
    assert!(key(NODE).same(&key(NODE)));
    assert!(!key(NODE).same(&key(OTHER)));
}

#[test]
fn uncompressed_key_is_compressed() {
    let uncompressed = "0479be667ef9dcbbac55a06295ce870b07029bfcdb2dce28d959f2815b16f81798\
        483ada7726a3c4655da4fbfc0e1108a8fd17b448a68554199c47d08ffb10d4b8";
    assert_eq!(key(uncompressed).to_hex(), OTHER);
}

#[test]
fn texts_that_are_no_keys() {
    assert!(PublicKey::parse("").is_none());
    assert!(PublicKey::parse("02").is_none());
    assert!(PublicKey::parse(&NODE[1..]).is_none());
    assert!(PublicKey::parse(&NODE.replace("02465e", "05465e")).is_none());
    assert!(PublicKey::parse(&NODE.replace("02465e", "0246zz")).is_none());
}

#[test]
fn repeated_arrival_changes_only_the_time() {
    let once = PaymentInfo::sent(saved(), [6; 32], Some(1), 20);
    let twice = PaymentInfo::sent(once, [6; 32], Some(1), 30);
    assert_eq!(twice, PaymentInfo::sent(saved(), [6; 32], Some(1), 30));
}

#[test]
fn last_outcome_stands() {
    let failed_after = PaymentInfo::failed(PaymentInfo::sent(saved(), [6; 32], None, 20), 21);
    assert_eq!(failed_after.status, HTLCStatus::Failed);
    assert_eq!(failed_after.preimage, Some([6; 32]));
    let sent_after = PaymentInfo::sent(PaymentInfo::failed(saved(), 20), [6; 32], None, 21);
    assert_eq!(sent_after.status, HTLCStatus::Succeeded);
    assert_eq!(sent_after.bolt11, saved().bolt11);
}

#[test]
fn clone_of_a_record_is_the_record() {
    assert_eq!(saved().clone(), saved());
}
