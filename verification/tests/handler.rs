use mutiny_core::event::{Action, Event, Outcome, Pending, Reply, Step};
use mutiny_core::handler::EventHandler;
use mutiny_core::key::PublicKey;
use mutiny_core::number::{delay_millis, u128_from_be_bytes};
use mutiny_core::payment::{HTLCStatus, MillisatAmount, PaymentInfo, PaymentPurpose};
use mutiny_core::transaction::{
    PartiallySignedTransaction, PsbtInput, Transaction, TxIn, TxOut,
};

const LSP: &str = "02465ed5be53d04fde66c9418ff14a5f2267723810176c9212b722e542dc1afb1b";
const PEER: &str = "0279be667ef9dcbbac55a06295ce870b07029bfcdb2dce28d959f2815b16f81798";

fn key(text: &str) -> PublicKey {
    PublicKey::parse(text).unwrap()
}

fn handler() -> EventHandler {
    EventHandler::new(Some(key(LSP)))
}

fn saved() -> PaymentInfo {
    PaymentInfo {
        preimage: None,
        secret: None,
        status: HTLCStatus::InFlight,
        amt_msat: MillisatAmount(Some(1_000)),
        fee_paid_msat: None,
        bolt11: Some("lnbc1".to_string()),
        payee_pubkey: Some(key(PEER)),
        last_update: 10,
    }
}

/// The pending state of a step, after its action has been compared.
fn expect_action(step: Step, expected: Action) -> Pending {
    match step {
        Step::Act(action, pending) => {
            assert_eq!(action, expected);
            pending
        }
        Step::Done(outcome) => panic!("done with {:?}", outcome),
    }
}

fn resume(pending: Pending, reply: Reply) -> Step {
    assert!(pending.expects(&reply));
    EventHandler::resume(pending, reply)
}

fn transaction(script_sig: Vec<u8>) -> Transaction {
    Transaction {
        version: 2,
        lock_time: 0,
        input: vec![TxIn {
            txid: [9; 32],
            vout: 1,
            script_sig,
            sequence: u32::MAX,
            witness: vec![],
        }],
        output: vec![TxOut { value: 50_000, script_pubkey: vec![0x51] }],
    }
}

fn funding_event() -> Event {
    Event::FundingGenerationReady {
        temporary_channel_id: [7; 32],
        counterparty_node_id: key(PEER),
        channel_value_satoshis: 50_000,
        output_script: vec![0x51],
    }
}

fn funding_pending() -> Pending {
    expect_action(
        handler().handle_event(funding_event()),
        Action::CreateSignedPsbt { output_script: vec![0x51], amount_satoshis: 50_000 },
    )
}

fn funded() -> Pending {
    let psbt = PartiallySignedTransaction {
        unsigned_tx: transaction(vec![]),
        inputs: vec![PsbtInput {
            final_script_sig: Some(vec![0x01, 0x02]),
            final_script_witness: None,
        }],
    };
    expect_action(
        resume(funding_pending(), Reply::Psbt(Some(psbt))),
        Action::FundingTransactionGenerated {
            temporary_channel_id: [7; 32],
            counterparty_node_id: key(PEER),
            transaction: transaction(vec![0x01, 0x02]),
        },
    )
}

#[test]
fn channel_is_funded_with_the_signed_transaction() {
    assert_eq!(resume(funded(), Reply::Accepted(true)), Step::Done(Outcome::ChannelFunded));
    assert_eq!(resume(funded(), Reply::Accepted(false)), Step::Done(Outcome::ChannelWentAway));
}

#[test]
fn channel_is_not_funded_without_a_transaction() {
    assert_eq!(
        resume(funding_pending(), Reply::Psbt(None)),
        Step::Done(Outcome::FundingNotCreated)
    );
}

fn claimable(purpose: PaymentPurpose) -> Event {
    Event::PaymentClaimable {
        receiver_node_id: None,
        payment_hash: [8; 32],
        purpose,
        amount_msat: 1_000,
    }
}

#[test]
fn payment_is_claimed_with_its_preimage() {
    let purposes = [
        PaymentPurpose::SpontaneousPayment([1; 32]),
        PaymentPurpose::InvoicePayment { payment_preimage: Some([1; 32]), payment_secret: [2; 32] },
    ];
    for purpose in purposes {
        let pending = expect_action(
            handler().handle_event(claimable(purpose)),
            Action::ClaimFunds { payment_preimage: [1; 32] },
        );
        assert_eq!(resume(pending, Reply::Performed), Step::Done(Outcome::FundsClaimed));
    }
}

#[test]
fn payment_without_preimage_is_not_claimed() {
    let purpose =
        PaymentPurpose::InvoicePayment { payment_preimage: None, payment_secret: [2; 32] };
    assert_eq!(
        handler().handle_event(claimable(purpose)),
        Step::Done(Outcome::NoPreimage)
    );
}

fn claimed_pending() -> Pending {
    expect_action(
        handler().handle_event(Event::PaymentClaimed {
            receiver_node_id: Some(key(LSP)),
            payment_hash: [8; 32],
            purpose: PaymentPurpose::SpontaneousPayment([1; 32]),
            amount_msat: 2_500,
        }),
        Action::ReadPaymentInfo { payment_hash: [8; 32], inbound: true },
    )
}

#[test]
fn claimed_payment_is_recorded() {
    let step = resume(claimed_pending(), Reply::Saved { payment_info: None, now: 42 });
    let pending = expect_action(
        step,
        Action::PersistPaymentInfo {
            payment_hash: [8; 32],
            payment_info: PaymentInfo {
                preimage: Some([1; 32]),
                secret: None,
                status: HTLCStatus::Succeeded,
                amt_msat: MillisatAmount(Some(2_500)),
                fee_paid_msat: None,
                bolt11: None,
                payee_pubkey: Some(key(LSP)),
                last_update: 42,
            },
            inbound: true,
        },
    );
    assert_eq!(pending, Pending::InfoPersisted);
    assert_eq!(
        resume(Pending::InfoPersisted, Reply::Persisted(true)),
        Step::Done(Outcome::PaymentRecorded)
    );
    assert_eq!(
        resume(pending, Reply::Persisted(false)),
        Step::Done(Outcome::PaymentNotRecorded)
    );
}

#[test]
fn claimed_payment_updates_its_record() {
    let step = resume(claimed_pending(), Reply::Saved { payment_info: Some(saved()), now: 42 });
    expect_action(
        step,
        Action::PersistPaymentInfo {
            payment_hash: [8; 32],
            payment_info: PaymentInfo {
                preimage: Some([1; 32]),
                status: HTLCStatus::Succeeded,
                amt_msat: MillisatAmount(Some(2_500)),
                last_update: 42,
                ..saved()
            },
            inbound: true,
        },
    );
}

fn sent_pending() -> Pending {
    expect_action(
        handler().handle_event(Event::PaymentSent {
            payment_preimage: [3; 32],
            payment_hash: [8; 32],
            fee_paid_msat: Some(11),
        }),
        Action::ReadPaymentInfo { payment_hash: [8; 32], inbound: false },
    )
}

#[test]
fn sent_payment_updates_its_record() {
    let step = resume(sent_pending(), Reply::Saved { payment_info: Some(saved()), now: 42 });
    expect_action(
        step,
        Action::PersistPaymentInfo {
            payment_hash: [8; 32],
            payment_info: PaymentInfo {
                preimage: Some([3; 32]),
                status: HTLCStatus::Succeeded,
                fee_paid_msat: Some(11),
                last_update: 42,
                ..saved()
            },
            inbound: false,
        },
    );
}

#[test]
fn failed_payment_updates_its_record() {
    let pending = expect_action(
        handler().handle_event(Event::PaymentFailed { payment_hash: [8; 32] }),
        Action::ReadPaymentInfo { payment_hash: [8; 32], inbound: false },
    );
    let step = resume(pending, Reply::Saved { payment_info: Some(saved()), now: 42 });
    expect_action(
        step,
        Action::PersistPaymentInfo {
            payment_hash: [8; 32],
            payment_info: PaymentInfo {
                status: HTLCStatus::Failed,
                last_update: 42,
                ..saved()
            },
            inbound: false,
        },
    );
}

#[test]
fn unknown_outgoing_payments_are_not_recorded() {
    let unknown = Step::Done(Outcome::PaymentUnknown);
    assert_eq!(
        resume(sent_pending(), Reply::Saved { payment_info: None, now: 42 }),
        unknown
    );
    let failed = Pending::FailedInfo { payment_hash: [8; 32] };
    assert_eq!(resume(failed, Reply::Saved { payment_info: None, now: 42 }), unknown);
}

fn open_request(peer: &str) -> Event {
    Event::OpenChannelRequest { temporary_channel_id: [5; 32], counterparty_node_id: key(peer) }
}

fn accepted(step: Step) -> (PublicKey, u128, bool, bool) {
    match step {
        Step::Act(
            Action::AcceptInboundChannel {
                temporary_channel_id,
                counterparty_node_id,
                user_channel_id,
                zero_conf,
                id_is_random,
            },
            Pending::ChannelAccepted,
        ) => {
            assert_eq!(temporary_channel_id, [5; 32]);
            (counterparty_node_id, user_channel_id, zero_conf, id_is_random)
        }
        step => panic!("unexpected step {:?}", step),
    }
}

#[test]
fn only_the_lsp_gets_a_channel_without_confirmations() {
    let (node, _, zero_conf, _) = accepted(handler().handle_event(open_request(LSP)));
    assert_eq!(node, key(LSP));
    assert!(zero_conf);
    let (node, _, zero_conf, _) = accepted(handler().handle_event(open_request(PEER)));
    assert_eq!(node, key(PEER));
    assert!(!zero_conf);
    let nobody = EventHandler::new(None);
    let (_, _, zero_conf, _) = accepted(nobody.handle_event(open_request(LSP)));
    assert!(!zero_conf);
    assert!(handler().trusts(&key(LSP)));
    assert!(!handler().trusts(&key(PEER)));
    assert!(!nobody.trusts(&key(LSP)));
}

#[test]
fn channel_ids_come_from_the_generator() {
    let (_, first, _, first_random) = accepted(handler().handle_event(open_request(PEER)));
    let (_, second, _, second_random) = accepted(handler().handle_event(open_request(PEER)));
    assert!(first_random && second_random);
    assert_ne!(first, second);
    assert_ne!(first, 0);
}

#[test]
fn channel_id_is_big_endian() {
    let mut bytes = [0u8; 16];
    bytes[15] = 2;
    bytes[14] = 1;
    let step = handler().open_channel([5; 32], key(LSP), bytes, false);
    assert_eq!(accepted(step), (key(LSP), 258, true, false));
}

#[test]
fn channel_can_be_refused() {
    assert_eq!(
        resume(Pending::ChannelAccepted, Reply::Accepted(true)),
        Step::Done(Outcome::ChannelAccepted)
    );
    assert_eq!(
        resume(Pending::ChannelAccepted, Reply::Accepted(false)),
        Step::Done(Outcome::ChannelRefused)
    );
}

#[test]
fn bytes_as_a_number() {
    assert_eq!(u128_from_be_bytes(&[0; 16]), 0);
    assert_eq!(u128_from_be_bytes(&[0xff; 16]), u128::MAX);
    let bytes = [1, 2, 3, 4, 5, 6, 7, 8, 9, 10, 11, 12, 13, 14, 15, 16];
    assert_eq!(u128_from_be_bytes(&bytes), u128::from_be_bytes(bytes));
    let mut other = bytes;
    other[0] = 2;
    assert_ne!(u128_from_be_bytes(&bytes), u128_from_be_bytes(&other));
}

#[test]
fn forwarding_waits_and_then_forwards() {
    let event = Event::PendingHTLCsForwardable { secs: 2, nanos: 345_678_901 };
    let pending = expect_action(handler().handle_event(event), Action::Sleep { millis: 2_345 });
    let pending =
        expect_action(resume(pending, Reply::Performed), Action::ProcessPendingHtlcForwards);
    assert_eq!(resume(pending, Reply::Performed), Step::Done(Outcome::HtlcsForwarded));
}

#[test]
fn delays_wrap_around() {
    assert_eq!(delay_millis(0, 0), 0);
    assert_eq!(delay_millis(0, 999_999), 0);
    assert_eq!(delay_millis(2_147_483, 647_000_000), i32::MAX);
    assert_eq!(delay_millis(2_147_483, 648_000_000), i32::MIN);
    assert_eq!(delay_millis(4_294_967, 296_000_000), 0);
    let longest = std::time::Duration::MAX;
    assert_eq!(
        delay_millis(longest.as_secs(), longest.subsec_nanos()),
        longest.as_millis() as i32
    );
}

#[test]
fn outputs_are_spent_and_broadcast() {
    let outputs = vec![vec![1, 2], vec![3]];
    let event = Event::SpendableOutputs { outputs: outputs.clone() };
    let pending = expect_action(handler().handle_event(event), Action::EstimateFee);
    let pending = expect_action(
        resume(pending, Reply::FeeRate(253)),
        Action::SpendOutputs { outputs, sat_per_1000_weight: 253 },
    );
    let pending = expect_action(
        resume(pending, Reply::SpendingTransaction(transaction(vec![9]))),
        Action::Broadcast { transaction: transaction(vec![9]) },
    );
    assert_eq!(resume(pending, Reply::Performed), Step::Done(Outcome::OutputsSpent));
}

#[test]
fn other_events_are_ignored() {
    let events = vec![
        Event::PaymentPathSuccessful,
        Event::PaymentPathFailed,
        Event::ProbeSuccessful,
        Event::ProbeFailed,
        Event::PaymentForwarded,
        Event::HTLCHandlingFailed,
        Event::ChannelClosed,
        Event::DiscardFunding,
        Event::ChannelReady,
        Event::HTLCIntercepted,
    ];
    for event in events {
        assert_eq!(handler().handle_event(event), Step::Done(Outcome::Ignored));
    }
}

#[test]
fn replies_have_to_fit() {
    assert!(!Pending::Awake.expects(&Reply::Persisted(true)));
    assert!(!Pending::InfoPersisted.expects(&Reply::Performed));
    assert!(!funding_pending().expects(&Reply::Accepted(true)));
    assert!(!claimed_pending().expects(&Reply::Psbt(None)));
    assert!(!Pending::OutputsSpent.expects(&Reply::FeeRate(1)));
    assert!(!Pending::FeeEstimated { outputs: vec![] }.expects(&Reply::Performed));
}
