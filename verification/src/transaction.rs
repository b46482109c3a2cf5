//! Transactions, and what a partially signed one becomes once it is complete.
use vstd::prelude::*;

verus! {

/// An input of a transaction.
#[derive(Debug, PartialEq, Eq)]
pub struct TxIn {
    /// The id of the transaction whose output is spent.
    pub txid: [u8; 32],
    /// The index of that output.
    pub vout: u32,
    pub script_sig: Vec<u8>,
    pub sequence: u32,
    pub witness: Vec<Vec<u8>>,
}

/// An output of a transaction.
#[derive(Debug, PartialEq, Eq)]
pub struct TxOut {
    /// The value in satoshis.
    pub value: u64,
    pub script_pubkey: Vec<u8>,
}

/// A transaction.
#[derive(Debug, PartialEq, Eq)]
pub struct Transaction {
    pub version: i32,
    pub lock_time: u32,
    pub input: Vec<TxIn>,
    pub output: Vec<TxOut>,
}

/// What a partially signed transaction holds in the end for one input.
#[derive(Debug, PartialEq, Eq)]
pub struct PsbtInput {
    pub final_script_sig: Option<Vec<u8>>,
    pub final_script_witness: Option<Vec<Vec<u8>>>,
}

/// A partially signed transaction, as far as it decides the transaction that comes of it.
#[derive(Debug, PartialEq, Eq)]
pub struct PartiallySignedTransaction {
    pub unsigned_tx: Transaction,
    pub inputs: Vec<PsbtInput>,
}

/// What an input says, apart from how it is held.
pub struct TxInView {
    pub txid: Seq<u8>,
    pub vout: u32,
    pub script_sig: Seq<u8>,
    pub sequence: u32,
    pub witness: Seq<Seq<u8>>,
}

/// What an output says, apart from how it is held.
pub struct TxOutView {
    pub value: u64,
    pub script_pubkey: Seq<u8>,
}

/// What a transaction says, apart from how it is held.
#[verifier::ext_equal]
pub struct TransactionView {
    pub version: i32,
    pub lock_time: u32,
    pub input: Seq<TxInView>,
    pub output: Seq<TxOutView>,
}

/// What is final for one input, apart from how it is held.
pub struct PsbtInputView {
    pub final_script_sig: Option<Seq<u8>>,
    pub final_script_witness: Option<Seq<Seq<u8>>>,
}

/// What a partially signed transaction says, apart from how it is held.
pub struct PsbtView {
    pub unsigned_tx: TransactionView,
    pub inputs: Seq<PsbtInputView>,
}

/// The elements of a witness, apart from how they are held.
pub open spec fn witness_view(witness: Seq<Vec<u8>>) -> Seq<Seq<u8>> {
    Seq::new(witness.len(), |i: int| witness[i]@)
}

impl View for TxIn {
    type V = TxInView;

    open spec fn view(&self) -> TxInView {
        TxInView {
            txid: self.txid@,
            vout: self.vout,
            script_sig: self.script_sig@,
            sequence: self.sequence,
            witness: witness_view(self.witness@),
        }
    }
}

impl View for TxOut {
    type V = TxOutView;

    open spec fn view(&self) -> TxOutView {
        TxOutView { value: self.value, script_pubkey: self.script_pubkey@ }
    }
}

impl View for Transaction {
    type V = TransactionView;

    open spec fn view(&self) -> TransactionView {
        TransactionView {
            version: self.version,
            lock_time: self.lock_time,
            input: Seq::new(self.input@.len(), |i: int| self.input@[i]@),
            output: Seq::new(self.output@.len(), |i: int| self.output@[i]@),
        }
    }
}

impl View for PsbtInput {
    type V = PsbtInputView;

    open spec fn view(&self) -> PsbtInputView {
        PsbtInputView {
            final_script_sig: match self.final_script_sig {
                Some(script) => Some(script@),
                None => None,
            },
            final_script_witness: match self.final_script_witness {
                Some(witness) => Some(witness_view(witness@)),
                None => None,
            },
        }
    }
}

impl View for PartiallySignedTransaction {
    type V = PsbtView;

    open spec fn view(&self) -> PsbtView {
        PsbtView {
            unsigned_tx: self.unsigned_tx@,
            inputs: Seq::new(self.inputs@.len(), |i: int| self.inputs@[i]@),
        }
    }
}

/// An input with its final script and witness; one that is not there is empty.
pub open spec fn completed(txin: TxInView, psbtin: PsbtInputView) -> TxInView {
    TxInView {
        script_sig: psbtin.final_script_sig.unwrap_or(seq![]),
        witness: psbtin.final_script_witness.unwrap_or(seq![]),
        ..txin
    }
}

/// The transaction that a partially signed one becomes: each input that it knows of is completed,
/// and everything else is as in the unsigned transaction.
pub open spec fn extracted(psbt: PsbtView) -> TransactionView {
    let unsigned = psbt.unsigned_tx;
    TransactionView {
        input: Seq::new(
            unsigned.input.len(),
            |i: int|
                if i < psbt.inputs.len() {
                    completed(unsigned.input[i], psbt.inputs[i])
                } else {
                    unsigned.input[i]
                },
        ),
        ..unsigned
    }
}

impl PartiallySignedTransaction {
    /// Fills the final scripts and witnesses into the unsigned transaction.
    pub fn extract_tx(self) -> (tx: Transaction)
        ensures
            tx@ == extracted(self@),
            tx.version == self.unsigned_tx.version,
            tx.lock_time == self.unsigned_tx.lock_time,
            tx.output@ == self.unsigned_tx.output@,
            tx.input@.len() == self.unsigned_tx.input@.len(),
    {
        let ghost unsigned = self.unsigned_tx;
        let ghost finals = self.inputs@;
        let mut tx = self.unsigned_tx;
        let mut i: usize = 0;
        for psbtin in iter: self.inputs
            invariant
                iter.seq() == finals,
                i == if iter.index() < tx.input@.len() {
                    iter.index()
                } else {
                    tx.input@.len() as int
                },
                tx.version == unsigned.version,
                tx.lock_time == unsigned.lock_time,
                tx.output == unsigned.output,
                tx.input@.len() == unsigned.input@.len(),
                forall|j: int|
                    0 <= j < tx.input@.len() ==> (#[trigger] tx.input@[j])@ == if j
                        < iter.index() {
                        completed(unsigned.input@[j]@, finals[j]@)
                    } else {
                        unsigned.input@[j]@
                    },
        {
            if i < tx.input.len() {
                tx.input[i].script_sig = match psbtin.final_script_sig {
                    Some(script) => script,
                    None => Vec::new(),
                };
                tx.input[i].witness = match psbtin.final_script_witness {
                    Some(witness) => witness,
                    None => Vec::new(),
                };
                proof {
                    let txin = tx.input@[i as int];
                    assert(txin@ == completed(unsigned.input@[i as int]@, psbtin@)) by {
                        assert(psbtin.final_script_sig is None ==> txin.script_sig@ =~= seq![]);
                        assert(psbtin.final_script_witness is None ==> txin@.witness =~= seq![]);
                    }
                }
                i = i + 1;
            }
        }
        assert(tx@ =~= extracted(self@));
        tx
    }
}

/// The transaction that comes of a partially signed one has at each input the final script and
/// the final witness of that input, exactly as they are; where one of them is missing, the input
/// has none. What each input spends, and an input of which the partially signed transaction says
/// nothing, stay as they were, and so do the outputs, the version and the lock time.
pub proof fn law_final_scripts_and_witnesses_are_used(
    psbt: PartiallySignedTransaction,
    tx: Transaction,
)
    requires
        tx@ == extracted(psbt@),
    ensures
        tx.version == psbt.unsigned_tx.version,
        tx.lock_time == psbt.unsigned_tx.lock_time,
        tx.output@.len() == psbt.unsigned_tx.output@.len(),
        forall|i: int|
            0 <= i < tx.output@.len() ==> {
                let unsigned = psbt.unsigned_tx.output@[i];
                &&& (#[trigger] tx.output@[i]).value == unsigned.value
                &&& tx.output@[i].script_pubkey@ == unsigned.script_pubkey@
            },
        tx.input@.len() == psbt.unsigned_tx.input@.len(),
        forall|i: int|
            0 <= i < tx.input@.len() ==> {
                let unsigned = psbt.unsigned_tx.input@[i];
                &&& (#[trigger] tx.input@[i]).txid@ == unsigned.txid@
                &&& tx.input@[i].vout == unsigned.vout
                &&& tx.input@[i].sequence == unsigned.sequence
            },
        forall|i: int|
            0 <= i < tx.input@.len() && i < psbt.inputs@.len() ==> match psbt.inputs@[i]
                .final_script_sig {
                Some(script) => (#[trigger] tx.input@[i]).script_sig@ == script@,
                None => tx.input@[i].script_sig@.len() == 0,
            },
        forall|i: int|
            0 <= i < tx.input@.len() && i < psbt.inputs@.len() ==> match psbt.inputs@[i]
                .final_script_witness {
                Some(witness) => {
                    &&& (#[trigger] tx.input@[i]).witness@.len() == witness@.len()
                    &&& forall|k: int|
                        0 <= k < witness@.len() ==> (#[trigger] tx.input@[i].witness@[k])@
                            == witness@[k]@
                },
                None => tx.input@[i].witness@.len() == 0,
            },
        forall|i: int|
            psbt.inputs@.len() <= i < tx.input@.len() ==> {
                let unsigned = psbt.unsigned_tx.input@[i];
                &&& (#[trigger] tx.input@[i]).script_sig@ == unsigned.script_sig@
                &&& tx.input@[i].witness@.len() == unsigned.witness@.len()
                &&& forall|k: int|
                    0 <= k < unsigned.witness@.len() ==> (#[trigger] tx.input@[i].witness@[k])@
                        == unsigned.witness@[k]@
            },
{
    let unsigned = psbt.unsigned_tx;
    assert(tx@.output == unsigned@.output);
    assert forall|i: int| 0 <= i < tx.output@.len() implies (#[trigger] tx.output@[i])@
        == unsigned.output@[i]@ by {
        assert(tx@.output[i] == unsigned@.output[i]);
    }
    assert(tx@.input.len() == unsigned@.input.len());
    assert forall|i: int| 0 <= i < tx.input@.len() implies (#[trigger] tx.input@[i])@ == if i
        < psbt.inputs@.len() {
        completed(unsigned.input@[i]@, psbt.inputs@[i]@)
    } else {
        unsigned.input@[i]@
    } by {
        assert(tx@.input[i] == extracted(psbt@).input[i]);
    }
    assert forall|i: int, k: int|
        0 <= i < tx.input@.len() && 0 <= k < tx.input@[i].witness@.len() implies (
    #[trigger] tx.input@[i].witness@[k])@ == tx.input@[i]@.witness[k] by {}
    assert forall|i: int|
        0 <= i < tx.input@.len() && i < psbt.inputs@.len() implies match psbt.inputs@[i]
        .final_script_witness {
        Some(witness) => {
            &&& (#[trigger] tx.input@[i]).witness@.len() == witness@.len()
            &&& forall|k: int|
                0 <= k < witness@.len() ==> (#[trigger] tx.input@[i].witness@[k])@ == witness@[k]@
        },
        None => tx.input@[i].witness@.len() == 0,
    } by {
        assert(tx.input@[i]@ == completed(unsigned.input@[i]@, psbt.inputs@[i]@));
        assert(tx.input@[i]@.witness.len() == tx.input@[i].witness@.len());
        if let Some(witness) = psbt.inputs@[i].final_script_witness {
            assert(tx.input@[i]@.witness == witness_view(witness@));
            assert(witness_view(witness@).len() == witness@.len());
        }
    }
    assert forall|i: int| psbt.inputs@.len() <= i < tx.input@.len() implies {
        let before = unsigned.input@[i];
        &&& (#[trigger] tx.input@[i]).script_sig@ == before.script_sig@
        &&& tx.input@[i].witness@.len() == before.witness@.len()
        &&& forall|k: int|
            0 <= k < before.witness@.len() ==> (#[trigger] tx.input@[i].witness@[k])@
                == before.witness@[k]@
    } by {
        let before = unsigned.input@[i];
        assert(tx.input@[i]@ == before@);
        assert(tx.input@[i]@.witness.len() == tx.input@[i].witness@.len());
        assert(before@.witness.len() == before.witness@.len());
    }
}

} // verus!
