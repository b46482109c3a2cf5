//! The events of the Lightning node, and the steps in which they are handled.
//!
//! `EventHandler::handle_event` looks at an event and either ends there or asks for one action of
//! the outside world: of the wallet, the channel manager, the storage, the clock.
//! `EventHandler::resume` takes what came of the action and decides again.
use vstd::prelude::*;

use crate::key::PublicKey;
use crate::payment::{PaymentInfo, PaymentPurpose};
use crate::transaction::{PartiallySignedTransaction, Transaction};

verus! {

/// An event of the Lightning node. Scripts and spendable outputs are held in their serialized form.
#[derive(Debug, PartialEq, Eq)]
pub enum Event {
    /// A channel that we open needs its funding transaction.
    FundingGenerationReady {
        temporary_channel_id: [u8; 32],
        counterparty_node_id: PublicKey,
        channel_value_satoshis: u64,
        output_script: Vec<u8>,
    },
    /// A payment to us waits to be claimed.
    PaymentClaimable {
        receiver_node_id: Option<PublicKey>,
        payment_hash: [u8; 32],
        purpose: PaymentPurpose,
        amount_msat: u64,
    },
    /// A payment to us was claimed.
    PaymentClaimed {
        receiver_node_id: Option<PublicKey>,
        payment_hash: [u8; 32],
        purpose: PaymentPurpose,
        amount_msat: u64,
    },
    /// A payment of ours arrived.
    PaymentSent {
        payment_preimage: [u8; 32],
        payment_hash: [u8; 32],
        fee_paid_msat: Option<u64>,
    },
    /// A peer wants to open a channel.
    OpenChannelRequest { temporary_channel_id: [u8; 32], counterparty_node_id: PublicKey },
    PaymentPathSuccessful,
    PaymentPathFailed,
    ProbeSuccessful,
    ProbeFailed,
    /// A payment of ours failed for good.
    PaymentFailed { payment_hash: [u8; 32] },
    PaymentForwarded,
    HTLCHandlingFailed,
    /// HTLCs can be forwarded once the time given in seconds and nanoseconds has passed.
    PendingHTLCsForwardable { secs: u64, nanos: u32 },
    /// Outputs on the chain have become ours to spend.
    SpendableOutputs { outputs: Vec<Vec<u8>> },
    ChannelClosed,
    DiscardFunding,
    ChannelReady,
    HTLCIntercepted,
}

/// What is asked of the outside world.
#[derive(Debug, PartialEq, Eq)]
pub enum Action {
    /// Have the wallet sign a transaction that pays the amount to the script, at the fee rate
    /// that the wallet chooses.
    CreateSignedPsbt { output_script: Vec<u8>, amount_satoshis: u64 },
    /// Hand the funding transaction of a channel to the channel manager.
    FundingTransactionGenerated {
        temporary_channel_id: [u8; 32],
        counterparty_node_id: PublicKey,
        transaction: Transaction,
    },
    /// Claim the payment with this preimage.
    ClaimFunds { payment_preimage: [u8; 32] },
    /// Read the record of a payment, and the clock.
    ReadPaymentInfo { payment_hash: [u8; 32], inbound: bool },
    /// Store the record of a payment.
    PersistPaymentInfo { payment_hash: [u8; 32], payment_info: PaymentInfo, inbound: bool },
    /// Accept the channel that a peer wants to open, at once and without confirmations where
    /// `zero_conf` says so. `id_is_random` tells whether the id came out of the generator in
    /// good order.
    AcceptInboundChannel {
        temporary_channel_id: [u8; 32],
        counterparty_node_id: PublicKey,
        user_channel_id: u128,
        zero_conf: bool,
        id_is_random: bool,
    },
    /// Wait that many milliseconds.
    Sleep { millis: i32 },
    /// Have the channel manager forward what is pending.
    ProcessPendingHtlcForwards,
    /// Estimate the fee for a confirmation at normal speed, per thousand units of weight.
    EstimateFee,
    /// Have the keys manager sign a transaction that spends the outputs at the fee rate, with no
    /// destinations of ours.
    SpendOutputs { outputs: Vec<Vec<u8>>, sat_per_1000_weight: u32 },
    /// Send the transaction to the network.
    Broadcast { transaction: Transaction },
}

/// What came of an action.
#[derive(Debug, PartialEq, Eq)]
pub enum Reply {
    /// The signed transaction in its partially signed form, or none where the wallet failed.
    Psbt(Option<PartiallySignedTransaction>),
    /// Whether the channel manager agreed.
    Accepted(bool),
    /// The record that was read, and the time in seconds after that.
    Saved { payment_info: Option<PaymentInfo>, now: u64 },
    /// Whether the record was stored.
    Persisted(bool),
    /// The estimated fee.
    FeeRate(u32),
    /// The transaction that spends the outputs.
    SpendingTransaction(Transaction),
    /// The action is done and has no result.
    Performed,
}

/// What the handler waits for, with what it needs to go on.
#[derive(Debug, PartialEq, Eq)]
pub enum Pending {
    SignedPsbt { temporary_channel_id: [u8; 32], counterparty_node_id: PublicKey },
    FundingAccepted,
    FundsClaimed,
    ClaimedInfo {
        receiver_node_id: Option<PublicKey>,
        payment_hash: [u8; 32],
        purpose: PaymentPurpose,
        amount_msat: u64,
    },
    SentInfo {
        payment_preimage: [u8; 32],
        payment_hash: [u8; 32],
        fee_paid_msat: Option<u64>,
    },
    FailedInfo { payment_hash: [u8; 32] },
    InfoPersisted,
    ChannelAccepted,
    Awake,
    HtlcsForwarded,
    FeeEstimated { outputs: Vec<Vec<u8>> },
    OutputsSpent,
    TransactionSent,
}

/// How an event was handled.
#[derive(Clone, Copy, Debug, PartialEq, Eq)]
pub enum Outcome {
    /// The event asks nothing of the wallet.
    Ignored,
    /// The wallet gave no signed transaction to fund the channel with.
    FundingNotCreated,
    /// The channel was gone before it could be funded.
    ChannelWentAway,
    ChannelFunded,
    /// The payment cannot be claimed: its preimage is not known.
    NoPreimage,
    FundsClaimed,
    PaymentRecorded,
    /// The record of the payment could not be stored.
    PaymentNotRecorded,
    /// There was no record of the payment to bring up to date.
    PaymentUnknown,
    ChannelAccepted,
    ChannelRefused,
    HtlcsForwarded,
    OutputsSpent,
}

/// The handler's next move.
#[derive(Debug, PartialEq, Eq)]
pub enum Step {
    /// Perform the action, and hand its reply to `EventHandler::resume` with what is pending.
    Act(Action, Pending),
    /// The event is dealt with.
    Done(Outcome),
}

impl Pending {
    /// Whether a reply of this form answers what is pending.
    pub open spec fn spec_expects(&self, reply: &Reply) -> bool {
        match self {
            Pending::SignedPsbt { .. } => reply is Psbt,
            Pending::FundingAccepted | Pending::ChannelAccepted => reply is Accepted,
            Pending::ClaimedInfo { .. }
            | Pending::SentInfo { .. }
            | Pending::FailedInfo { .. } => reply is Saved,
            Pending::InfoPersisted => reply is Persisted,
            Pending::FeeEstimated { .. } => reply is FeeRate,
            Pending::OutputsSpent => reply is SpendingTransaction,
            Pending::FundsClaimed
            | Pending::Awake
            | Pending::HtlcsForwarded
            | Pending::TransactionSent => reply is Performed,
        }
    }

    /// Whether a reply of this form answers what is pending.
    #[verifier::when_used_as_spec(spec_expects)]
    pub fn expects(&self, reply: &Reply) -> (expected: bool)
        ensures
            expected == self.expects(reply),
    {
        match self {
            Pending::SignedPsbt { .. } => matches!(reply, Reply::Psbt(_)),
            Pending::FundingAccepted | Pending::ChannelAccepted => {
                matches!(reply, Reply::Accepted(_))
            },
            Pending::ClaimedInfo { .. } | Pending::SentInfo { .. } | Pending::FailedInfo { .. } => {
                matches!(reply, Reply::Saved { .. })
            },
            Pending::InfoPersisted => matches!(reply, Reply::Persisted(_)),
            Pending::FeeEstimated { .. } => matches!(reply, Reply::FeeRate(_)),
            Pending::OutputsSpent => matches!(reply, Reply::SpendingTransaction(_)),
            Pending::FundsClaimed
            | Pending::Awake
            | Pending::HtlcsForwarded
            | Pending::TransactionSent => matches!(reply, Reply::Performed),
        }
    }
}

} // verus!
