//! What the wallet remembers of a payment, and how the events of its life change that.
use vstd::prelude::*;

use crate::key::{is_point, PublicKey};

verus! {

/// An amount in thousandths of a satoshi, where it is known.
#[derive(Clone, Copy, Debug, PartialEq, Eq, PartialOrd, Ord, Hash)]
pub struct MillisatAmount(pub Option<u64>);

impl MillisatAmount {
    /// Whether the amount is unknown.
    pub fn is_none(&self) -> (none: bool)
        ensures
            none == (self.0 is None),
    {
        self.0.is_none()
    }
}

/// How far a payment has come.
#[derive(Clone, Copy, Debug, PartialEq, Eq, PartialOrd, Ord, Hash, Structural)]
pub enum HTLCStatus {
    Pending,
    InFlight,
    Succeeded,
    Failed,
}

/// The record of one payment.
#[derive(Debug, PartialEq, Eq, PartialOrd, Ord, Hash)]
pub struct PaymentInfo {
    pub preimage: Option<[u8; 32]>,
    pub secret: Option<[u8; 32]>,
    pub status: HTLCStatus,
    pub amt_msat: MillisatAmount,
    pub fee_paid_msat: Option<u64>,
    pub bolt11: Option<String>,
    pub payee_pubkey: Option<PublicKey>,
    pub last_update: u64,
}

impl Clone for PaymentInfo {
    /// The same record.
    fn clone(&self) -> (info: PaymentInfo)
        ensures
            info == *self,
    {
        PaymentInfo {
            preimage: self.preimage,
            secret: self.secret,
            status: self.status,
            amt_msat: self.amt_msat,
            fee_paid_msat: self.fee_paid_msat,
            bolt11: match &self.bolt11 {
                Some(text) => Some(text.clone()),
                None => None,
            },
            payee_pubkey: self.payee_pubkey,
            last_update: self.last_update,
        }
    }
}

/// What a record says, apart from how it is held.
#[verifier::ext_equal]
pub struct PaymentInfoView {
    pub preimage: Option<Seq<u8>>,
    pub secret: Option<Seq<u8>>,
    pub status: HTLCStatus,
    pub amt_msat: Option<u64>,
    pub fee_paid_msat: Option<u64>,
    pub bolt11: Option<Seq<char>>,
    pub payee_pubkey: Option<Seq<u8>>,
    pub last_update: u64,
}

impl View for PaymentInfo {
    type V = PaymentInfoView;

    open spec fn view(&self) -> PaymentInfoView {
        PaymentInfoView {
            preimage: match self.preimage {
                Some(bytes) => Some(bytes@),
                None => None,
            },
            secret: match self.secret {
                Some(bytes) => Some(bytes@),
                None => None,
            },
            status: self.status,
            amt_msat: self.amt_msat.0,
            fee_paid_msat: self.fee_paid_msat,
            bolt11: match self.bolt11 {
                Some(text) => Some(text@),
                None => None,
            },
            payee_pubkey: match self.payee_pubkey {
                Some(key) => Some(key@),
                None => None,
            },
            last_update: self.last_update,
        }
    }
}

impl PaymentInfoView {
    /// Whether a record can say this: preimage and secret have 32 bytes, and the payee is a point
    /// on the curve.
    pub open spec fn wf(self) -> bool {
        &&& self.preimage matches Some(bytes) ==> bytes.len() == 32
        &&& self.secret matches Some(bytes) ==> bytes.len() == 32
        &&& self.payee_pubkey matches Some(bytes) ==> is_point(bytes)
    }
}

/// What an incoming payment is for.
#[derive(Clone, Copy, Debug, PartialEq, Eq)]
pub enum PaymentPurpose {
    /// An invoice was paid.
    InvoicePayment { payment_preimage: Option<[u8; 32]>, payment_secret: [u8; 32] },
    /// The payer chose the preimage and sent it along.
    SpontaneousPayment([u8; 32]),
}

impl PaymentPurpose {
    /// The preimage that claims the payment, where it is known.
    pub open spec fn spec_preimage(self) -> Option<[u8; 32]> {
        match self {
            PaymentPurpose::InvoicePayment { payment_preimage, .. } => payment_preimage,
            PaymentPurpose::SpontaneousPayment(preimage) => Some(preimage),
        }
    }

    /// The secret of the invoice; a spontaneous payment has none.
    pub open spec fn spec_secret(self) -> Option<[u8; 32]> {
        match self {
            PaymentPurpose::InvoicePayment { payment_secret, .. } => Some(payment_secret),
            PaymentPurpose::SpontaneousPayment(_) => None,
        }
    }

    /// The preimage that claims the payment, where it is known.
    #[verifier::when_used_as_spec(spec_preimage)]
    pub fn preimage(self) -> (preimage: Option<[u8; 32]>)
        ensures
            preimage == self.preimage(),
    {
        match self {
            PaymentPurpose::InvoicePayment { payment_preimage, .. } => payment_preimage,
            PaymentPurpose::SpontaneousPayment(preimage) => Some(preimage),
        }
    }

    /// The secret of the invoice; a spontaneous payment has none.
    #[verifier::when_used_as_spec(spec_secret)]
    pub fn secret(self) -> (secret: Option<[u8; 32]>)
        ensures
            secret == self.secret(),
    {
        match self {
            PaymentPurpose::InvoicePayment { payment_secret, .. } => Some(payment_secret),
            PaymentPurpose::SpontaneousPayment(_) => None,
        }
    }
}

/// The record of an incoming payment of `amount_msat` that was claimed at the time `now`, where
/// `saved` is what was recorded of it before.
///
/// The claim settles the preimage, the secret, the amount and the status. What else an earlier
/// record says stays; a first record names the node that received the payment.
pub open spec fn claimed_record(
    saved: Option<PaymentInfo>,
    receiver_node_id: Option<PublicKey>,
    purpose: PaymentPurpose,
    amount_msat: u64,
    now: u64,
) -> PaymentInfo {
    PaymentInfo {
        preimage: purpose.preimage(),
        secret: purpose.secret(),
        status: HTLCStatus::Succeeded,
        amt_msat: MillisatAmount(Some(amount_msat)),
        last_update: now,
        fee_paid_msat: match saved {
            Some(info) => info.fee_paid_msat,
            None => None,
        },
        bolt11: match saved {
            Some(info) => info.bolt11,
            None => None,
        },
        payee_pubkey: match saved {
            Some(info) => info.payee_pubkey,
            None => receiver_node_id,
        },
    }
}

/// The record `saved` of an outgoing payment once it has arrived.
pub open spec fn sent_record(
    saved: PaymentInfo,
    payment_preimage: [u8; 32],
    fee_paid_msat: Option<u64>,
    now: u64,
) -> PaymentInfo {
    PaymentInfo {
        status: HTLCStatus::Succeeded,
        preimage: Some(payment_preimage),
        fee_paid_msat,
        last_update: now,
        ..saved
    }
}

/// The record `saved` of an outgoing payment once it has failed for good.
pub open spec fn failed_record(saved: PaymentInfo, now: u64) -> PaymentInfo {
    PaymentInfo { status: HTLCStatus::Failed, last_update: now, ..saved }
}

impl PaymentInfo {
    /// Records that an incoming payment was claimed.
    pub fn claimed(
        saved: Option<PaymentInfo>,
        receiver_node_id: Option<PublicKey>,
        purpose: PaymentPurpose,
        amount_msat: u64,
        now: u64,
    ) -> (info: PaymentInfo)
        ensures
            info == claimed_record(saved, receiver_node_id, purpose, amount_msat, now),
            info.status == HTLCStatus::Succeeded,
            info.amt_msat.0 == Some(amount_msat),
            info.last_update == now,
    {
        match saved {
            Some(mut info) => {
                info.status = HTLCStatus::Succeeded;
                info.preimage = purpose.preimage();
                info.secret = purpose.secret();
                info.amt_msat = MillisatAmount(Some(amount_msat));
                info.last_update = now;
                info
            },
            None => PaymentInfo {
                preimage: purpose.preimage(),
                secret: purpose.secret(),
                status: HTLCStatus::Succeeded,
                amt_msat: MillisatAmount(Some(amount_msat)),
                fee_paid_msat: None,
                payee_pubkey: receiver_node_id,
                bolt11: None,
                last_update: now,
            },
        }
    }

    /// Records that an outgoing payment has arrived.
    pub fn sent(
        saved: PaymentInfo,
        payment_preimage: [u8; 32],
        fee_paid_msat: Option<u64>,
        now: u64,
    ) -> (info: PaymentInfo)
        ensures
            info == sent_record(saved, payment_preimage, fee_paid_msat, now),
            info.status == HTLCStatus::Succeeded,
            info.preimage == Some(payment_preimage),
            info.fee_paid_msat == fee_paid_msat,
            info.last_update == now,
    {
        let mut info = saved;
        info.status = HTLCStatus::Succeeded;
        info.preimage = Some(payment_preimage);
        info.fee_paid_msat = fee_paid_msat;
        info.last_update = now;
        info
    }

    /// Records that an outgoing payment has failed for good.
    pub fn failed(saved: PaymentInfo, now: u64) -> (info: PaymentInfo)
        ensures
            info == failed_record(saved, now),
            info.status == HTLCStatus::Failed,
            info.last_update == now,
    {
        let mut info = saved;
        info.status = HTLCStatus::Failed;
        info.last_update = now;
        info
    }
}

/// Claiming a payment over an earlier record is as good as claiming it once: a repeated claim
/// leaves everything but the time of the last one.
pub proof fn law_repeated_claim(
    saved: Option<PaymentInfo>,
    receiver_node_id: Option<PublicKey>,
    purpose: PaymentPurpose,
    amount_msat: u64,
    first: u64,
    second: u64,
)
    ensures
        claimed_record(
            Some(claimed_record(saved, receiver_node_id, purpose, amount_msat, first)),
            receiver_node_id,
            purpose,
            amount_msat,
            second,
        ) == claimed_record(saved, receiver_node_id, purpose, amount_msat, second),
{
}

/// Recording twice that a payment has arrived leaves everything but the time of the second record.
pub proof fn law_repeated_arrival(
    saved: PaymentInfo,
    payment_preimage: [u8; 32],
    fee_paid_msat: Option<u64>,
    first: u64,
    second: u64,
)
    ensures
        sent_record(
            sent_record(saved, payment_preimage, fee_paid_msat, first),
            payment_preimage,
            fee_paid_msat,
            second,
        ) == sent_record(saved, payment_preimage, fee_paid_msat, second),
{
}

/// What is recorded last decides the status: a payment that fails is `Failed` and one that arrives
/// is `Succeeded`, whatever was recorded before, and neither touches the secret, the amount, the
/// invoice or the payee.
pub proof fn law_last_outcome_stands(
    saved: PaymentInfo,
    payment_preimage: [u8; 32],
    fee_paid_msat: Option<u64>,
    now: u64,
)
    ensures
        ({
            let sent = sent_record(saved, payment_preimage, fee_paid_msat, now);
            let failed = failed_record(saved, now);
            &&& sent.status == HTLCStatus::Succeeded
            &&& failed.status == HTLCStatus::Failed
            &&& sent.secret == saved.secret && failed.secret == saved.secret
            &&& sent.amt_msat == saved.amt_msat && failed.amt_msat == saved.amt_msat
            &&& sent.bolt11 == saved.bolt11 && failed.bolt11 == saved.bolt11
            &&& sent.payee_pubkey == saved.payee_pubkey && failed.payee_pubkey
                == saved.payee_pubkey
            &&& failed.preimage == saved.preimage && failed.fee_paid_msat == saved.fee_paid_msat
            &&& sent.preimage == Some(payment_preimage) && sent.fee_paid_msat == fee_paid_msat
            &&& sent.last_update == now && failed.last_update == now
        }),
{
}

/// A claimed payment is recorded as one that succeeded, with the amount that came, the time of the
/// claim, and the preimage and the secret that its purpose holds, whatever was recorded before.
/// Of an earlier record the fee, the invoice and the payee stay; a first record has no fee and no
/// invoice, and its payee is the node that received the payment.
pub proof fn law_claim_settles_the_record(
    saved: Option<PaymentInfo>,
    receiver_node_id: Option<PublicKey>,
    purpose: PaymentPurpose,
    amount_msat: u64,
    now: u64,
    info: PaymentInfo,
)
    requires
        info == claimed_record(saved, receiver_node_id, purpose, amount_msat, now),
    ensures
        info.status == HTLCStatus::Succeeded,
        info.amt_msat.0 == Some(amount_msat),
        info.last_update == now,
        match purpose {
            PaymentPurpose::InvoicePayment { payment_preimage, payment_secret } => {
                &&& info.preimage == payment_preimage
                &&& info.secret == Some(payment_secret)
            },
            PaymentPurpose::SpontaneousPayment(preimage) => {
                &&& info.preimage == Some(preimage)
                &&& info.secret is None
            },
        },
        match saved {
            Some(before) => {
                &&& info.fee_paid_msat == before.fee_paid_msat
                &&& info.bolt11 == before.bolt11
                &&& info.payee_pubkey == before.payee_pubkey
            },
            None => {
                &&& info.fee_paid_msat is None
                &&& info.bolt11 is None
                &&& info.payee_pubkey == receiver_node_id
            },
        },
{
}

/// What a record says is what its fields hold.
pub proof fn law_record_says_its_fields(info: PaymentInfo)
    ensures
        info.preimage is Some <==> info@.preimage is Some,
        info.preimage is Some ==> info@.preimage->0 == info.preimage->0@,
        info.secret is Some <==> info@.secret is Some,
        info.secret is Some ==> info@.secret->0 == info.secret->0@,
        info@.status == info.status,
        info@.amt_msat == info.amt_msat.0,
        info@.fee_paid_msat == info.fee_paid_msat,
        info.bolt11 is Some <==> info@.bolt11 is Some,
        info.bolt11 is Some ==> info@.bolt11->0 == info.bolt11->0@,
        info.payee_pubkey is Some <==> info@.payee_pubkey is Some,
        info.payee_pubkey is Some ==> info@.payee_pubkey->0 == info.payee_pubkey->0@,
        info@.last_update == info.last_update,
{
}

} // verus!
