//! The decisions of the wallet on the events of its Lightning node.
use vstd::prelude::*;

use crate::event::{Action, Event, Outcome, Pending, Reply, Step};
use crate::key::PublicKey;
use crate::number::{big_endian, delay_millis, u128_from_be_bytes, whole_millis, wrapped_i32};
use crate::payment::{claimed_record, failed_record, sent_record, PaymentInfo};
use crate::transaction::{extracted, PsbtView};

verus! {

/// The error that the random number generator of the system can give.
#[verifier::external_type_specification]
#[verifier::external_body]
pub struct ExGetrandomError(getrandom::Error);

/// Calls `getrandom::getrandom`, which fills `dest` from the random number source of the system.
///
/// Nothing is claimed: the bytes are a matter of chance, the source can fail, and after a failure
/// `dest` can hold anything.
#[verifier::external_body]
fn fill_random(dest: &mut [u8; 16]) -> (filled: Result<(), getrandom::Error>) {
    getrandom::getrandom(dest)
}

/// Decides what the wallet does about an event.
#[derive(Clone, Copy, Debug)]
pub struct EventHandler {
    lsp_client_pubkey: Option<PublicKey>,
}

/// The step that asks for the record of a payment.
pub open spec fn read_step(payment_hash: [u8; 32], inbound: bool, pending: Pending) -> Step {
    Step::Act(Action::ReadPaymentInfo { payment_hash, inbound }, pending)
}

/// The step that stores the record of a payment.
pub open spec fn persist_step(
    payment_hash: [u8; 32],
    payment_info: PaymentInfo,
    inbound: bool,
) -> Step {
    Step::Act(
        Action::PersistPaymentInfo { payment_hash, payment_info, inbound },
        Pending::InfoPersisted,
    )
}

/// The step that accepts a peer's channel.
pub open spec fn accept_step(
    temporary_channel_id: [u8; 32],
    counterparty_node_id: PublicKey,
    user_channel_id: u128,
    zero_conf: bool,
    id_is_random: bool,
) -> Step {
    Step::Act(
        Action::AcceptInboundChannel {
            temporary_channel_id,
            counterparty_node_id,
            user_channel_id,
            zero_conf,
            id_is_random,
        },
        Pending::ChannelAccepted,
    )
}

/// Whether `step` funds a channel with the transaction that comes of `psbt`; without one the
/// handling ends.
pub open spec fn is_funding_step(
    step: Step,
    temporary_channel_id: [u8; 32],
    counterparty_node_id: PublicKey,
    psbt: Option<PsbtView>,
) -> bool {
    match psbt {
        Some(psbt) => {
            &&& step matches Step::Act(
                Action::FundingTransactionGenerated {
                    temporary_channel_id: id,
                    counterparty_node_id: node,
                    transaction,
                },
                Pending::FundingAccepted,
            )
            &&& id == temporary_channel_id
            &&& node == counterparty_node_id
            &&& transaction@ == extracted(psbt)
        },
        None => step == Step::Done(Outcome::FundingNotCreated),
    }
}

/// Whether `step` is how the handling of `event` begins, where `zero_conf` tells whether the
/// peer of the event is trusted. Only the id of a channel to accept is a matter of chance.
pub open spec fn begins_with(event: Event, zero_conf: bool, step: Step) -> bool {
    match event {
        Event::FundingGenerationReady {
            temporary_channel_id,
            counterparty_node_id,
            channel_value_satoshis,
            output_script,
        } => step == Step::Act(
            Action::CreateSignedPsbt { output_script, amount_satoshis: channel_value_satoshis },
            Pending::SignedPsbt { temporary_channel_id, counterparty_node_id },
        ),
        Event::PaymentClaimable { purpose, .. } => match purpose.preimage() {
            Some(payment_preimage) => step == Step::Act(
                Action::ClaimFunds { payment_preimage },
                Pending::FundsClaimed,
            ),
            None => step == Step::Done(Outcome::NoPreimage),
        },
        Event::PaymentClaimed { receiver_node_id, payment_hash, purpose, amount_msat } => step
            == read_step(
            payment_hash,
            true,
            Pending::ClaimedInfo { receiver_node_id, payment_hash, purpose, amount_msat },
        ),
        Event::PaymentSent { payment_preimage, payment_hash, fee_paid_msat } => step == read_step(
            payment_hash,
            false,
            Pending::SentInfo { payment_preimage, payment_hash, fee_paid_msat },
        ),
        Event::PaymentFailed { payment_hash } => step == read_step(
            payment_hash,
            false,
            Pending::FailedInfo { payment_hash },
        ),
        Event::OpenChannelRequest { temporary_channel_id, counterparty_node_id } => exists|
            user_channel_id: u128,
            id_is_random: bool,
        |
            step == #[trigger] accept_step(
                temporary_channel_id,
                counterparty_node_id,
                user_channel_id,
                zero_conf,
                id_is_random,
            ),
        Event::PendingHTLCsForwardable { secs, nanos } => {
            &&& step matches Step::Act(Action::Sleep { millis }, Pending::Awake)
            &&& millis == wrapped_i32(whole_millis(secs, nanos))
        },
        Event::SpendableOutputs { outputs } => step == Step::Act(
            Action::EstimateFee,
            Pending::FeeEstimated { outputs },
        ),
        Event::PaymentPathSuccessful
        | Event::PaymentPathFailed
        | Event::ProbeSuccessful
        | Event::ProbeFailed
        | Event::PaymentForwarded
        | Event::HTLCHandlingFailed
        | Event::ChannelClosed
        | Event::DiscardFunding
        | Event::ChannelReady
        | Event::HTLCIntercepted => step == Step::Done(Outcome::Ignored),
    }
}

/// Whether `step` is how the handling goes on once `reply` has come for what was pending.
pub open spec fn goes_on_with(pending: Pending, reply: Reply, step: Step) -> bool {
    match (pending, reply) {
        (
            Pending::SignedPsbt { temporary_channel_id, counterparty_node_id },
            Reply::Psbt(psbt),
        ) => is_funding_step(
            step,
            temporary_channel_id,
            counterparty_node_id,
            match psbt {
                Some(psbt) => Some(psbt@),
                None => None,
            },
        ),
        (Pending::FundingAccepted, Reply::Accepted(accepted)) => step == Step::Done(
            if accepted {
                Outcome::ChannelFunded
            } else {
                Outcome::ChannelWentAway
            },
        ),
        (Pending::FundsClaimed, Reply::Performed) => step == Step::Done(Outcome::FundsClaimed),
        (
            Pending::ClaimedInfo { receiver_node_id, payment_hash, purpose, amount_msat },
            Reply::Saved { payment_info, now },
        ) => step == persist_step(
            payment_hash,
            claimed_record(payment_info, receiver_node_id, purpose, amount_msat, now),
            true,
        ),
        (
            Pending::SentInfo { payment_preimage, payment_hash, fee_paid_msat },
            Reply::Saved { payment_info, now },
        ) => step == match payment_info {
            Some(saved) => persist_step(
                payment_hash,
                sent_record(saved, payment_preimage, fee_paid_msat, now),
                false,
            ),
            None => Step::Done(Outcome::PaymentUnknown),
        },
        (Pending::FailedInfo { payment_hash }, Reply::Saved { payment_info, now }) => step
            == match payment_info {
            Some(saved) => persist_step(payment_hash, failed_record(saved, now), false),
            None => Step::Done(Outcome::PaymentUnknown),
        },
        (Pending::InfoPersisted, Reply::Persisted(stored)) => step == Step::Done(
            if stored {
                Outcome::PaymentRecorded
            } else {
                Outcome::PaymentNotRecorded
            },
        ),
        (Pending::ChannelAccepted, Reply::Accepted(accepted)) => step == Step::Done(
            if accepted {
                Outcome::ChannelAccepted
            } else {
                Outcome::ChannelRefused
            },
        ),
        (Pending::Awake, Reply::Performed) => step == Step::Act(
            Action::ProcessPendingHtlcForwards,
            Pending::HtlcsForwarded,
        ),
        (Pending::HtlcsForwarded, Reply::Performed) => step == Step::Done(Outcome::HtlcsForwarded),
        (Pending::FeeEstimated { outputs }, Reply::FeeRate(sat_per_1000_weight)) => step
            == Step::Act(
            Action::SpendOutputs { outputs, sat_per_1000_weight },
            Pending::OutputsSpent,
        ),
        (Pending::OutputsSpent, Reply::SpendingTransaction(transaction)) => step == Step::Act(
            Action::Broadcast { transaction },
            Pending::TransactionSent,
        ),
        (Pending::TransactionSent, Reply::Performed) => step == Step::Done(Outcome::OutputsSpent),
        _ => false,
    }
}

impl EventHandler {
    /// The key of the service provider whose channels are trusted, if there is one.
    pub closed spec fn lsp(&self) -> Option<Seq<u8>> {
        match self.lsp_client_pubkey {
            Some(key) => Some(key@),
            None => None,
        }
    }

    /// Whether the channels of this peer are trusted without confirmations.
    pub open spec fn spec_trusts(&self, counterparty_node_id: &PublicKey) -> bool {
        self.lsp() == Some(counterparty_node_id@)
    }

    /// Whether the peer of an event is trusted; of no matter where the event names no peer.
    pub open spec fn trusts_peer_of(&self, event: Event) -> bool {
        match event {
            Event::OpenChannelRequest { counterparty_node_id, .. } => self.spec_trusts(
                &counterparty_node_id,
            ),
            _ => false,
        }
    }

    /// A handler that trusts the channels of the given service provider.
    pub fn new(lsp_client_pubkey: Option<PublicKey>) -> (handler: EventHandler)
        ensures
            handler.lsp() == match lsp_client_pubkey {
                Some(key) => Some(key@),
                None => None,
            },
    {
        EventHandler { lsp_client_pubkey }
    }

    /// Whether the channels of this peer are trusted without confirmations.
    #[verifier::when_used_as_spec(spec_trusts)]
    pub fn trusts(&self, counterparty_node_id: &PublicKey) -> (trusted: bool)
        ensures
            trusted == self.trusts(counterparty_node_id),
    {
        match &self.lsp_client_pubkey {
            Some(key) => key.same(counterparty_node_id),
            None => false,
        }
    }

    /// Answers a peer that wants to open a channel, under the id that `id_bytes` write.
    ///
    /// The peer that matches the key of the service provider gets its channel without
    /// confirmations; every other peer gets a normal one.
    pub fn open_channel(
        &self,
        temporary_channel_id: [u8; 32],
        counterparty_node_id: PublicKey,
        id_bytes: [u8; 16],
        id_is_random: bool,
    ) -> (step: Step)
        ensures
            step == accept_step(
                temporary_channel_id,
                counterparty_node_id,
                big_endian(id_bytes@) as u128,
                self.trusts(&counterparty_node_id),
                id_is_random,
            ),
            big_endian(id_bytes@) <= u128::MAX,
            step matches Step::Act(
                Action::AcceptInboundChannel {
                    temporary_channel_id: id,
                    counterparty_node_id: node,
                    user_channel_id,
                    zero_conf,
                    id_is_random: random,
                },
                Pending::ChannelAccepted,
            ) && id == temporary_channel_id && node == counterparty_node_id && user_channel_id
                == big_endian(id_bytes@) && zero_conf == (self.lsp() == Some(counterparty_node_id@))
                && random == id_is_random,
    {
        let user_channel_id: u128 = u128_from_be_bytes(&id_bytes);
        let zero_conf = self.trusts(&counterparty_node_id);
        Step::Act(
            Action::AcceptInboundChannel {
                temporary_channel_id,
                counterparty_node_id,
                user_channel_id,
                zero_conf,
                id_is_random,
            },
            Pending::ChannelAccepted,
        )
    }

    /// Begins to handle an event.
    pub fn handle_event(&self, event: Event) -> (step: Step)
        ensures
            begins_with(event, self.trusts_peer_of(event), step),
    {
        match event {
            Event::FundingGenerationReady {
                temporary_channel_id,
                counterparty_node_id,
                channel_value_satoshis,
                output_script,
            } => Step::Act(
                Action::CreateSignedPsbt {
                    output_script,
                    amount_satoshis: channel_value_satoshis,
                },
                Pending::SignedPsbt { temporary_channel_id, counterparty_node_id },
            ),
            Event::PaymentClaimable { purpose, .. } => match purpose.preimage() {
                Some(payment_preimage) => Step::Act(
                    Action::ClaimFunds { payment_preimage },
                    Pending::FundsClaimed,
                ),
                None => Step::Done(Outcome::NoPreimage),
            },
            Event::PaymentClaimed { receiver_node_id, payment_hash, purpose, amount_msat } => {
                Step::Act(
                    Action::ReadPaymentInfo { payment_hash, inbound: true },
                    Pending::ClaimedInfo { receiver_node_id, payment_hash, purpose, amount_msat },
                )
            },
            Event::PaymentSent { payment_preimage, payment_hash, fee_paid_msat } => Step::Act(
                Action::ReadPaymentInfo { payment_hash, inbound: false },
                Pending::SentInfo { payment_preimage, payment_hash, fee_paid_msat },
            ),
            Event::PaymentFailed { payment_hash } => Step::Act(
                Action::ReadPaymentInfo { payment_hash, inbound: false },
                Pending::FailedInfo { payment_hash },
            ),
            Event::OpenChannelRequest { temporary_channel_id, counterparty_node_id } => {
                let mut id_bytes: [u8; 16] = [0u8; 16];
                let id_is_random = fill_random(&mut id_bytes).is_ok();
                self.open_channel(
                    temporary_channel_id,
                    counterparty_node_id,
                    id_bytes,
                    id_is_random,
                )
            },
            Event::PendingHTLCsForwardable { secs, nanos } => Step::Act(
                Action::Sleep { millis: delay_millis(secs, nanos) },
                Pending::Awake,
            ),
            Event::SpendableOutputs { outputs } => Step::Act(
                Action::EstimateFee,
                Pending::FeeEstimated { outputs },
            ),
            Event::PaymentPathSuccessful
            | Event::PaymentPathFailed
            | Event::ProbeSuccessful
            | Event::ProbeFailed
            | Event::PaymentForwarded
            | Event::HTLCHandlingFailed
            | Event::ChannelClosed
            | Event::DiscardFunding
            | Event::ChannelReady
            | Event::HTLCIntercepted => Step::Done(Outcome::Ignored),
        }
    }

    /// Goes on with an event once the action that was asked for has been performed.
    pub fn resume(pending: Pending, reply: Reply) -> (step: Step)
        requires
            pending.expects(&reply),
        ensures
            goes_on_with(pending, reply, step),
    {
        match (pending, reply) {
            (
                Pending::SignedPsbt { temporary_channel_id, counterparty_node_id },
                Reply::Psbt(psbt),
            ) => match psbt {
                Some(psbt) => Step::Act(
                    Action::FundingTransactionGenerated {
                        temporary_channel_id,
                        counterparty_node_id,
                        transaction: psbt.extract_tx(),
                    },
                    Pending::FundingAccepted,
                ),
                None => Step::Done(Outcome::FundingNotCreated),
            },
            (Pending::FundingAccepted, Reply::Accepted(accepted)) => Step::Done(
                if accepted {
                    Outcome::ChannelFunded
                } else {
                    Outcome::ChannelWentAway
                },
            ),
            (Pending::FundsClaimed, Reply::Performed) => Step::Done(Outcome::FundsClaimed),
            (
                Pending::ClaimedInfo { receiver_node_id, payment_hash, purpose, amount_msat },
                Reply::Saved { payment_info, now },
            ) => Step::Act(
                Action::PersistPaymentInfo {
                    payment_hash,
                    payment_info: PaymentInfo::claimed(
                        payment_info,
                        receiver_node_id,
                        purpose,
                        amount_msat,
                        now,
                    ),
                    inbound: true,
                },
                Pending::InfoPersisted,
            ),
            (
                Pending::SentInfo { payment_preimage, payment_hash, fee_paid_msat },
                Reply::Saved { payment_info, now },
            ) => match payment_info {
                Some(saved) => Step::Act(
                    Action::PersistPaymentInfo {
                        payment_hash,
                        payment_info: PaymentInfo::sent(
                            saved,
                            payment_preimage,
                            fee_paid_msat,
                            now,
                        ),
                        inbound: false,
                    },
                    Pending::InfoPersisted,
                ),
                None => Step::Done(Outcome::PaymentUnknown),
            },
            (Pending::FailedInfo { payment_hash }, Reply::Saved { payment_info, now }) => {
                match payment_info {
                    Some(saved) => Step::Act(
                        Action::PersistPaymentInfo {
                            payment_hash,
                            payment_info: PaymentInfo::failed(saved, now),
                            inbound: false,
                        },
                        Pending::InfoPersisted,
                    ),
                    None => Step::Done(Outcome::PaymentUnknown),
                }
            },
            (Pending::InfoPersisted, Reply::Persisted(stored)) => Step::Done(
                if stored {
                    Outcome::PaymentRecorded
                } else {
                    Outcome::PaymentNotRecorded
                },
            ),
            (Pending::ChannelAccepted, Reply::Accepted(accepted)) => Step::Done(
                if accepted {
                    Outcome::ChannelAccepted
                } else {
                    Outcome::ChannelRefused
                },
            ),
            (Pending::Awake, Reply::Performed) => Step::Act(
                Action::ProcessPendingHtlcForwards,
                Pending::HtlcsForwarded,
            ),
            (Pending::HtlcsForwarded, Reply::Performed) => Step::Done(Outcome::HtlcsForwarded),
            (Pending::FeeEstimated { outputs }, Reply::FeeRate(sat_per_1000_weight)) => Step::Act(
                Action::SpendOutputs { outputs, sat_per_1000_weight },
                Pending::OutputsSpent,
            ),
            (Pending::OutputsSpent, Reply::SpendingTransaction(transaction)) => Step::Act(
                Action::Broadcast { transaction },
                Pending::TransactionSent,
            ),
            // What is left is a transaction on its way; `expects` rules out every other pair.
            _ => Step::Done(Outcome::OutputsSpent),
        }
    }
}

} // verus!
