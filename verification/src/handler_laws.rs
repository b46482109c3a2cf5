//! What holds of the whole handling of an event, whatever the outside world replies.
use vstd::prelude::*;

use crate::event::{Action, Event, Outcome, Pending, Reply, Step};
use crate::handler::{begins_with, goes_on_with, EventHandler};
use crate::key::PublicKey;
use crate::number::{whole_millis, wrapped_i32};
use crate::payment::{
    claimed_record, failed_record, sent_record, HTLCStatus, PaymentInfo, PaymentPurpose,
};
use crate::transaction::extracted;

verus! {

/// Whether `next` is a step that the handler takes after `step`, on a reply that answers it.
pub open spec fn answered(step: Step, reply: Reply, next: Step) -> bool {
    &&& step matches Step::Act(_, pending)
    &&& pending.expects(&reply)
    &&& goes_on_with(pending, reply, next)
}

/// Whether the handler, given `event` and then one reply after another, takes these steps. The
/// handling need not have come to its end.
pub open spec fn is_run(
    handler: EventHandler,
    event: Event,
    replies: Seq<Reply>,
    steps: Seq<Step>,
) -> bool {
    &&& steps.len() == replies.len() + 1
    &&& begins_with(event, handler.trusts_peer_of(event), steps[0])
    &&& forall|i: int|
        0 <= i < replies.len() ==> answered(steps[i], #[trigger] replies[i], steps[i + 1])
}

/// The number of replies that can still come.
pub open spec fn replies_left(step: Step) -> nat {
    match step {
        Step::Done(_) => 0,
        Step::Act(_, pending) => match pending {
            Pending::FeeEstimated { .. } => 3,
            Pending::SignedPsbt { .. }
            | Pending::ClaimedInfo { .. }
            | Pending::SentInfo { .. }
            | Pending::FailedInfo { .. }
            | Pending::Awake
            | Pending::OutputsSpent => 2,
            Pending::FundingAccepted
            | Pending::FundsClaimed
            | Pending::InfoPersisted
            | Pending::ChannelAccepted
            | Pending::HtlcsForwarded
            | Pending::TransactionSent => 1,
        },
    }
}

/// Whether the event asks nothing of the wallet.
pub open spec fn is_idle(event: Event) -> bool {
    match event {
        Event::PaymentPathSuccessful
        | Event::PaymentPathFailed
        | Event::ProbeSuccessful
        | Event::ProbeFailed
        | Event::PaymentForwarded
        | Event::HTLCHandlingFailed
        | Event::ChannelClosed
        | Event::DiscardFunding
        | Event::ChannelReady
        | Event::HTLCIntercepted => true,
        _ => false,
    }
}

/// Every reply leaves fewer to come.
proof fn lemma_replies_left(
    handler: EventHandler,
    event: Event,
    replies: Seq<Reply>,
    steps: Seq<Step>,
    i: int,
)
    requires
        is_run(handler, event, replies, steps),
        0 <= i <= replies.len(),
    ensures
        replies_left(steps[i]) + i <= 3,
    decreases i,
{
    if i > 0 {
        lemma_replies_left(handler, event, replies, steps, i - 1);
        assert(answered(steps[i - 1], replies[i - 1], steps[i - 1 + 1]));
    }
}

/// Spells a run out: there are no more than three replies, each of which is answered.
proof fn lemma_unrolled(
    handler: EventHandler,
    event: Event,
    replies: Seq<Reply>,
    steps: Seq<Step>,
)
    requires
        is_run(handler, event, replies, steps),
    ensures
        replies.len() <= 3,
        replies.len() >= 1 ==> answered(steps[0], replies[0], steps[1]),
        replies.len() >= 2 ==> answered(steps[1], replies[1], steps[2]),
        replies.len() >= 3 ==> answered(steps[2], replies[2], steps[3]),
{
    lemma_replies_left(handler, event, replies, steps, replies.len() as int);
    assert(replies.len() >= 1 ==> answered(steps[0], replies[0], steps[0int + 1]));
    assert(replies.len() >= 2 ==> answered(steps[1], replies[1], steps[1int + 1]));
    assert(replies.len() >= 3 ==> answered(steps[2], replies[2], steps[2int + 1]));
}

/// Handling an event comes to an end: after three replies at most, whatever they are, nothing
/// more is asked for.
pub proof fn law_handling_ends(
    handler: EventHandler,
    event: Event,
    replies: Seq<Reply>,
    steps: Seq<Step>,
)
    requires
        is_run(handler, event, replies, steps),
    ensures
        replies.len() <= 3,
        replies.len() == 3 ==> steps.last() is Done,
{
    lemma_replies_left(handler, event, replies, steps, replies.len() as int);
}

/// An event that asks nothing of the wallet leads to no action.
pub proof fn law_idle_events_do_nothing(
    handler: EventHandler,
    event: Event,
    replies: Seq<Reply>,
    steps: Seq<Step>,
)
    requires
        is_run(handler, event, replies, steps),
        is_idle(event) || event is PaymentPathSuccessful || event is PaymentPathFailed
            || event is ProbeSuccessful || event is ProbeFailed || event is PaymentForwarded
            || event is HTLCHandlingFailed || event is ChannelClosed || event is DiscardFunding
            || event is ChannelReady || event is HTLCIntercepted,
    ensures
        steps == seq![Step::Done(Outcome::Ignored)],
{
    lemma_unrolled(handler, event, replies, steps);
    assert(steps =~= seq![Step::Done(Outcome::Ignored)]);
}

/// A channel is accepted only for the peer that asked for it, and without confirmations exactly
/// where that peer's key is the key of the service provider.
pub proof fn law_only_the_lsp_gets_zero_conf(
    handler: EventHandler,
    event: Event,
    replies: Seq<Reply>,
    steps: Seq<Step>,
    i: int,
)
    requires
        is_run(handler, event, replies, steps),
        0 <= i < steps.len(),
    ensures
        steps[i] matches Step::Act(
            Action::AcceptInboundChannel {
                temporary_channel_id,
                counterparty_node_id,
                zero_conf,
                ..
            },
            _,
        ) ==> {
            &&& event == (Event::OpenChannelRequest { temporary_channel_id, counterparty_node_id })
            &&& zero_conf == (handler.lsp() == Some(counterparty_node_id@))
        },
{
    lemma_unrolled(handler, event, replies, steps);
}

/// A channel is funded only with the transaction that the wallet signed for it: one that it was
/// asked to make out to the channel's script and for the channel's value.
pub proof fn law_channels_are_funded_as_agreed(
    handler: EventHandler,
    event: Event,
    replies: Seq<Reply>,
    steps: Seq<Step>,
    i: int,
)
    requires
        is_run(handler, event, replies, steps),
        0 <= i < steps.len(),
    ensures
        steps[i] matches Step::Act(
            Action::FundingTransactionGenerated {
                temporary_channel_id,
                counterparty_node_id,
                transaction,
            },
            _,
        ) ==> {
            &&& i == 1
            &&& event matches Event::FundingGenerationReady {
                temporary_channel_id: id,
                counterparty_node_id: node,
                channel_value_satoshis,
                output_script,
            }
            &&& id == temporary_channel_id && node == counterparty_node_id
            &&& steps[0] matches Step::Act(action, _)
            &&& action == (Action::CreateSignedPsbt {
                output_script,
                amount_satoshis: channel_value_satoshis,
            })
            &&& replies[0] matches Reply::Psbt(Some(psbt))
            &&& transaction@ == extracted(psbt@)
        },
{
    lemma_unrolled(handler, event, replies, steps);
}

/// Funds are claimed only for a claimable payment, and with the preimage of that payment.
pub proof fn law_claims_use_the_preimage(
    handler: EventHandler,
    event: Event,
    replies: Seq<Reply>,
    steps: Seq<Step>,
    i: int,
)
    requires
        is_run(handler, event, replies, steps),
        0 <= i < steps.len(),
    ensures
        steps[i] matches Step::Act(Action::ClaimFunds { payment_preimage }, _) ==> {
            &&& event matches Event::PaymentClaimable { purpose, .. }
            &&& purpose.preimage() == Some(payment_preimage)
        },
{
    lemma_unrolled(handler, event, replies, steps);
}

/// A record is stored at most once for an event, right after the record under the same hash and
/// in the same direction was read; it is the one read, brought up to date by the event. Only a
/// claimed payment is incoming, and only for a claimed payment is a first record made.
pub proof fn law_records_follow_the_event(
    handler: EventHandler,
    event: Event,
    replies: Seq<Reply>,
    steps: Seq<Step>,
    i: int,
)
    requires
        is_run(handler, event, replies, steps),
        0 <= i < steps.len(),
    ensures
        steps[i] matches Step::Act(
            Action::PersistPaymentInfo { payment_hash, payment_info, inbound },
            _,
        ) ==> {
            &&& i == 1
            &&& steps[0] matches Step::Act(read, _)
            &&& read == (Action::ReadPaymentInfo { payment_hash, inbound })
            &&& replies[0] matches Reply::Saved { payment_info: saved, now }
            &&& match event {
                Event::PaymentClaimed {
                    receiver_node_id,
                    payment_hash: hash,
                    purpose,
                    amount_msat,
                } => {
                    &&& hash == payment_hash && inbound
                    &&& payment_info == claimed_record(
                        saved,
                        receiver_node_id,
                        purpose,
                        amount_msat,
                        now,
                    )
                },
                Event::PaymentSent { payment_preimage, payment_hash: hash, fee_paid_msat } => {
                    &&& hash == payment_hash && !inbound
                    &&& saved matches Some(saved)
                    &&& payment_info == sent_record(saved, payment_preimage, fee_paid_msat, now)
                },
                Event::PaymentFailed { payment_hash: hash } => {
                    &&& hash == payment_hash && !inbound
                    &&& saved matches Some(saved)
                    &&& payment_info == failed_record(saved, now)
                },
                _ => false,
            }
        },
{
    lemma_unrolled(handler, event, replies, steps);
}

/// An outgoing payment of which there is no record leaves none: its event ends with the reading.
pub proof fn law_unknown_payments_stay_unknown(
    handler: EventHandler,
    event: Event,
    replies: Seq<Reply>,
    steps: Seq<Step>,
    now: u64,
)
    requires
        is_run(handler, event, replies, steps),
        event is PaymentSent || event is PaymentFailed,
        replies.len() > 0,
        replies[0] == (Reply::Saved { payment_info: None, now }),
    ensures
        steps.len() == 2,
        steps[1] == Step::Done(Outcome::PaymentUnknown),
{
    lemma_unrolled(handler, event, replies, steps);
}

/// HTLCs are forwarded only after the time that their event gives has been waited for.
pub proof fn law_forwarding_waits(
    handler: EventHandler,
    event: Event,
    replies: Seq<Reply>,
    steps: Seq<Step>,
    i: int,
)
    requires
        is_run(handler, event, replies, steps),
        0 <= i < steps.len(),
    ensures
        steps[i] matches Step::Act(Action::ProcessPendingHtlcForwards, _) ==> {
            &&& i == 1
            &&& event matches Event::PendingHTLCsForwardable { secs, nanos }
            &&& steps[0] matches Step::Act(Action::Sleep { millis }, _)
            &&& millis == wrapped_i32(whole_millis(secs, nanos))
        },
{
    lemma_unrolled(handler, event, replies, steps);
}

/// What is broadcast is the transaction that the keys manager made of all the outputs of the
/// event, at the fee rate that was estimated.
pub proof fn law_outputs_are_spent_together(
    handler: EventHandler,
    event: Event,
    replies: Seq<Reply>,
    steps: Seq<Step>,
    i: int,
)
    requires
        is_run(handler, event, replies, steps),
        0 <= i < steps.len(),
    ensures
        steps[i] matches Step::Act(Action::Broadcast { transaction }, _) ==> {
            &&& i == 2
            &&& event matches Event::SpendableOutputs { outputs }
            &&& replies[0] matches Reply::FeeRate(sat_per_1000_weight)
            &&& steps[1] matches Step::Act(spend, _)
            &&& spend == (Action::SpendOutputs { outputs, sat_per_1000_weight })
            &&& replies[1] == Reply::SpendingTransaction(transaction)
        },
{
    lemma_unrolled(handler, event, replies, steps);
}

/// A claimable payment whose preimage is known is claimed with that preimage, at once, whoever
/// receives it and however much it is; the claim ends the handling. Without a preimage nothing is
/// claimed.
pub proof fn law_known_preimages_are_claimed(
    handler: EventHandler,
    event: Event,
    replies: Seq<Reply>,
    steps: Seq<Step>,
    receiver_node_id: Option<PublicKey>,
    payment_hash: [u8; 32],
    purpose: PaymentPurpose,
    amount_msat: u64,
)
    requires
        is_run(handler, event, replies, steps),
        event == (Event::PaymentClaimable { receiver_node_id, payment_hash, purpose, amount_msat }),
    ensures
        match purpose {
            PaymentPurpose::InvoicePayment { payment_preimage: Some(p), .. } => steps[0]
                == Step::Act(Action::ClaimFunds { payment_preimage: p }, Pending::FundsClaimed),
            PaymentPurpose::SpontaneousPayment(p) => steps[0] == Step::Act(
                Action::ClaimFunds { payment_preimage: p },
                Pending::FundsClaimed,
            ),
            PaymentPurpose::InvoicePayment { payment_preimage: None, .. } => steps == seq![
                Step::Done(Outcome::NoPreimage),
            ],
        },
        replies.len() > 0 ==> replies == seq![Reply::Performed] && steps.len() == 2 && steps[1]
            == Step::Done(Outcome::FundsClaimed),
{
    lemma_unrolled(handler, event, replies, steps);
    if replies.len() > 0 {
        assert(replies =~= seq![Reply::Performed]);
    }
    if steps[0] is Done {
        assert(steps =~= seq![steps[0]]);
    }
}

/// A channel that we open is funded: a transaction for its value, to its script, is asked for, and
/// the one that comes of it goes to the channel manager for that channel and that peer. It ends
/// there, or before that where the wallet gave no transaction.
pub proof fn law_opened_channels_are_funded(
    handler: EventHandler,
    event: Event,
    replies: Seq<Reply>,
    steps: Seq<Step>,
    temporary_channel_id: [u8; 32],
    counterparty_node_id: PublicKey,
    channel_value_satoshis: u64,
    output_script: Vec<u8>,
)
    requires
        is_run(handler, event, replies, steps),
        event == (Event::FundingGenerationReady {
            temporary_channel_id,
            counterparty_node_id,
            channel_value_satoshis,
            output_script,
        }),
    ensures
        steps[0] == Step::Act(
            Action::CreateSignedPsbt { output_script, amount_satoshis: channel_value_satoshis },
            Pending::SignedPsbt { temporary_channel_id, counterparty_node_id },
        ),
        replies.len() > 0 ==> match replies[0] {
            Reply::Psbt(Some(psbt)) => {
                &&& steps[1] matches Step::Act(
                    Action::FundingTransactionGenerated {
                        temporary_channel_id: id,
                        counterparty_node_id: node,
                        transaction,
                    },
                    Pending::FundingAccepted,
                )
                &&& id == temporary_channel_id
                &&& node == counterparty_node_id
                &&& transaction@ == extracted(psbt@)
                &&& replies.len() <= 2
            },
            Reply::Psbt(None) => steps.len() == 2 && steps[1] == Step::Done(
                Outcome::FundingNotCreated,
            ),
            _ => false,
        },
        replies.len() > 1 ==> match replies[1] {
            Reply::Accepted(true) => steps[2] == Step::Done(Outcome::ChannelFunded),
            Reply::Accepted(false) => steps[2] == Step::Done(Outcome::ChannelWentAway),
            _ => false,
        },
{
    lemma_unrolled(handler, event, replies, steps);
}

/// A claimed payment is recorded: its record is read as that of an incoming payment, and the one
/// that the claim makes of it is stored under the same hash, whether or not there was one.
pub proof fn law_claimed_payments_are_recorded(
    handler: EventHandler,
    event: Event,
    replies: Seq<Reply>,
    steps: Seq<Step>,
    receiver_node_id: Option<PublicKey>,
    payment_hash: [u8; 32],
    purpose: PaymentPurpose,
    amount_msat: u64,
)
    requires
        is_run(handler, event, replies, steps),
        event == (Event::PaymentClaimed { receiver_node_id, payment_hash, purpose, amount_msat }),
    ensures
        steps[0] matches Step::Act(action, _) && action == (Action::ReadPaymentInfo {
            payment_hash,
            inbound: true,
        }),
        replies.len() > 0 ==> {
            &&& replies[0] matches Reply::Saved { payment_info: saved, now }
            &&& steps[1] matches Step::Act(
                Action::PersistPaymentInfo { payment_hash: hash, payment_info, inbound },
                Pending::InfoPersisted,
            )
            &&& hash == payment_hash && inbound
            &&& payment_info.status == HTLCStatus::Succeeded
            &&& payment_info.amt_msat.0 == Some(amount_msat)
            &&& payment_info.last_update == now
            &&& payment_info == claimed_record(saved, receiver_node_id, purpose, amount_msat, now)
        },
        replies.len() > 1 ==> match replies[1] {
            Reply::Persisted(true) => steps[2] == Step::Done(Outcome::PaymentRecorded),
            Reply::Persisted(false) => steps[2] == Step::Done(Outcome::PaymentNotRecorded),
            _ => false,
        },
        replies.len() <= 2,
{
    lemma_unrolled(handler, event, replies, steps);
}

/// A payment of ours that arrived is recorded, if there is a record of it: as one that succeeded,
/// with its preimage, its fee and the time. All else stays.
pub proof fn law_arrived_payments_are_recorded(
    handler: EventHandler,
    event: Event,
    replies: Seq<Reply>,
    steps: Seq<Step>,
    payment_preimage: [u8; 32],
    payment_hash: [u8; 32],
    fee_paid_msat: Option<u64>,
)
    requires
        is_run(handler, event, replies, steps),
        event == (Event::PaymentSent { payment_preimage, payment_hash, fee_paid_msat }),
    ensures
        steps[0] matches Step::Act(action, _) && action == (Action::ReadPaymentInfo {
            payment_hash,
            inbound: false,
        }),
        replies.len() > 0 ==> match replies[0] {
            Reply::Saved { payment_info: Some(saved), now } => {
                &&& steps[1] matches Step::Act(
                    Action::PersistPaymentInfo { payment_hash: hash, payment_info, inbound },
                    Pending::InfoPersisted,
                )
                &&& hash == payment_hash && !inbound
                &&& payment_info == (PaymentInfo {
                    preimage: Some(payment_preimage),
                    secret: saved.secret,
                    status: HTLCStatus::Succeeded,
                    amt_msat: saved.amt_msat,
                    fee_paid_msat,
                    bolt11: saved.bolt11,
                    payee_pubkey: saved.payee_pubkey,
                    last_update: now,
                })
            },
            Reply::Saved { payment_info: None, .. } => steps.len() == 2 && steps[1] == Step::Done(
                Outcome::PaymentUnknown,
            ),
            _ => false,
        },
        replies.len() > 1 ==> match replies[1] {
            Reply::Persisted(true) => steps[2] == Step::Done(Outcome::PaymentRecorded),
            Reply::Persisted(false) => steps[2] == Step::Done(Outcome::PaymentNotRecorded),
            _ => false,
        },
        replies.len() <= 2,
{
    lemma_unrolled(handler, event, replies, steps);
}

/// A payment of ours that failed is recorded, if there is a record of it: as one that failed, with
/// the time. All else stays.
pub proof fn law_failed_payments_are_recorded(
    handler: EventHandler,
    event: Event,
    replies: Seq<Reply>,
    steps: Seq<Step>,
    payment_hash: [u8; 32],
)
    requires
        is_run(handler, event, replies, steps),
        event == (Event::PaymentFailed { payment_hash }),
    ensures
        steps[0] matches Step::Act(action, _) && action == (Action::ReadPaymentInfo {
            payment_hash,
            inbound: false,
        }),
        replies.len() > 0 ==> match replies[0] {
            Reply::Saved { payment_info: Some(saved), now } => {
                &&& steps[1] matches Step::Act(
                    Action::PersistPaymentInfo { payment_hash: hash, payment_info, inbound },
                    Pending::InfoPersisted,
                )
                &&& hash == payment_hash && !inbound
                &&& payment_info == (PaymentInfo {
                    preimage: saved.preimage,
                    secret: saved.secret,
                    status: HTLCStatus::Failed,
                    amt_msat: saved.amt_msat,
                    fee_paid_msat: saved.fee_paid_msat,
                    bolt11: saved.bolt11,
                    payee_pubkey: saved.payee_pubkey,
                    last_update: now,
                })
            },
            Reply::Saved { payment_info: None, .. } => steps.len() == 2 && steps[1] == Step::Done(
                Outcome::PaymentUnknown,
            ),
            _ => false,
        },
        replies.len() > 1 ==> match replies[1] {
            Reply::Persisted(true) => steps[2] == Step::Done(Outcome::PaymentRecorded),
            Reply::Persisted(false) => steps[2] == Step::Done(Outcome::PaymentNotRecorded),
            _ => false,
        },
        replies.len() <= 2,
{
    lemma_unrolled(handler, event, replies, steps);
}

/// Every peer that wants to open a channel gets it accepted: the channel that it asked for, and
/// without confirmations exactly where its key is the key of the service provider.
pub proof fn law_requested_channels_are_accepted(
    handler: EventHandler,
    event: Event,
    replies: Seq<Reply>,
    steps: Seq<Step>,
    temporary_channel_id: [u8; 32],
    counterparty_node_id: PublicKey,
)
    requires
        is_run(handler, event, replies, steps),
        event == (Event::OpenChannelRequest { temporary_channel_id, counterparty_node_id }),
    ensures
        ({
            &&& steps[0] matches Step::Act(
                Action::AcceptInboundChannel {
                    temporary_channel_id: id,
                    counterparty_node_id: node,
                    zero_conf,
                    ..
                },
                Pending::ChannelAccepted,
            )
            &&& id == temporary_channel_id
            &&& node == counterparty_node_id
            &&& zero_conf == (handler.lsp() == Some(counterparty_node_id@))
        }),
        replies.len() > 0 ==> match replies[0] {
            Reply::Accepted(true) => steps[1] == Step::Done(Outcome::ChannelAccepted),
            Reply::Accepted(false) => steps[1] == Step::Done(Outcome::ChannelRefused),
            _ => false,
        },
        replies.len() <= 1,
{
    lemma_unrolled(handler, event, replies, steps);
}

/// Pending HTLCs are forwarded, once: first the time of the event is waited for, in whole
/// milliseconds up to a multiple of 2^32, and to the millisecond where it is below 2^31 of them.
pub proof fn law_pending_htlcs_are_forwarded(
    handler: EventHandler,
    event: Event,
    replies: Seq<Reply>,
    steps: Seq<Step>,
    secs: u64,
    nanos: u32,
)
    requires
        is_run(handler, event, replies, steps),
        event == (Event::PendingHTLCsForwardable { secs, nanos }),
    ensures
        ({
            let whole = secs * 1000 + nanos as int / 1_000_000;
            &&& steps[0] matches Step::Act(Action::Sleep { millis }, Pending::Awake)
            &&& (whole - millis) % 0x1_0000_0000 == 0
            &&& whole < 0x8000_0000 ==> millis == whole
        }),
        replies.len() > 0 ==> replies[0] == Reply::Performed && steps[1] == Step::Act(
            Action::ProcessPendingHtlcForwards,
            Pending::HtlcsForwarded,
        ),
        replies.len() > 1 ==> replies[1] == Reply::Performed && steps[2] == Step::Done(
            Outcome::HtlcsForwarded,
        ),
        replies.len() <= 2,
{
    lemma_unrolled(handler, event, replies, steps);
}

/// Spendable outputs are spent: all of them, at the fee rate that was estimated, in a transaction
/// that is broadcast as the keys manager made it.
pub proof fn law_spendable_outputs_are_spent(
    handler: EventHandler,
    event: Event,
    replies: Seq<Reply>,
    steps: Seq<Step>,
    outputs: Vec<Vec<u8>>,
)
    requires
        is_run(handler, event, replies, steps),
        event == (Event::SpendableOutputs { outputs }),
    ensures
        steps[0] matches Step::Act(action, _) && action == Action::EstimateFee,
        replies.len() > 0 ==> {
            &&& replies[0] matches Reply::FeeRate(sat_per_1000_weight)
            &&& steps[1] == Step::Act(
                Action::SpendOutputs { outputs, sat_per_1000_weight },
                Pending::OutputsSpent,
            )
        },
        replies.len() > 1 ==> {
            &&& replies[1] matches Reply::SpendingTransaction(transaction)
            &&& steps[2] == Step::Act(
                Action::Broadcast { transaction },
                Pending::TransactionSent,
            )
        },
        replies.len() > 2 ==> replies[2] == Reply::Performed && steps[3] == Step::Done(
            Outcome::OutputsSpent,
        ),
{
    lemma_unrolled(handler, event, replies, steps);
}

/// Every action gets its own form of reply, whatever the reply holds: a transaction or none for a
/// funding, a verdict for a channel, what was read for a record, whether it was stored, a fee
/// rate, a transaction for what is to be spent. All else is just done.
pub proof fn law_each_action_has_its_reply(pending: Pending, reply: Reply)
    ensures
        reply is Psbt ==> (pending.expects(&reply) <==> pending is SignedPsbt),
        reply is Accepted ==> (pending.expects(&reply) <==> pending is FundingAccepted
            || pending is ChannelAccepted),
        reply is Saved ==> (pending.expects(&reply) <==> pending is ClaimedInfo
            || pending is SentInfo || pending is FailedInfo),
        reply is Persisted ==> (pending.expects(&reply) <==> pending is InfoPersisted),
        reply is FeeRate ==> (pending.expects(&reply) <==> pending is FeeEstimated),
        reply is SpendingTransaction ==> (pending.expects(&reply) <==> pending is OutputsSpent),
        reply is Performed ==> (pending.expects(&reply) <==> pending is FundsClaimed
            || pending is Awake || pending is HtlcsForwarded || pending is TransactionSent),
{
}

} // verus!
