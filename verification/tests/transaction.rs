use bitcoin::psbt;
use bitcoin::{OutPoint, PackedLockTime, Script, Sequence, Witness};
use mutiny_core::transaction::{
    PartiallySignedTransaction, PsbtInput, Transaction, TxIn, TxOut,
};

fn from_bitcoin(tx: &bitcoin::Transaction) -> Transaction {
    Transaction {
        version: tx.version,
        lock_time: tx.lock_time.0,
        input: tx
            .input
            .iter()
            .map(|txin| TxIn {
                txid: bitcoin::hashes::Hash::into_inner(txin.previous_output.txid),
                vout: txin.previous_output.vout,
                script_sig: txin.script_sig.to_bytes(),
                sequence: txin.sequence.0,
                witness: txin.witness.to_vec(),
            })
            .collect(),
        output: tx
            .output
            .iter()
            .map(|txout| TxOut {
                value: txout.value,
                script_pubkey: txout.script_pubkey.to_bytes(),
            })
            .collect(),
    }
}

fn from_psbt(psbt: &psbt::PartiallySignedTransaction) -> PartiallySignedTransaction {
    PartiallySignedTransaction {
        unsigned_tx: from_bitcoin(&psbt.unsigned_tx),
        inputs: psbt
            .inputs
            .iter()
            .map(|psbtin| PsbtInput {
                final_script_sig: psbtin.final_script_sig.as_ref().map(|script| script.to_bytes()),
                final_script_witness: psbtin.final_script_witness.as_ref().map(|w| w.to_vec()),
            })
            .collect(),
    }
}

fn input(n: u8) -> bitcoin::TxIn {
    bitcoin::TxIn {
        previous_output: OutPoint::new(bitcoin::hashes::Hash::from_inner([n; 32]), n as u32),
        script_sig: Script::new(),
        sequence: Sequence(n as u32),
        witness: Witness::new(),
    }
}

/// A transaction with three inputs: one is final with a script, one with a witness, one is not.
fn signed() -> psbt::PartiallySignedTransaction {
    let unsigned_tx = bitcoin::Transaction {
        version: 2,
        lock_time: PackedLockTime(700_000),
        input: vec![input(1), input(2), input(3)],
        output: vec![
            bitcoin::TxOut { value: 50_000, script_pubkey: Script::from(vec![0x51]) },
            bitcoin::TxOut { value: 7, script_pubkey: Script::new() },
        ],
    };
    let mut psbt = psbt::PartiallySignedTransaction::from_unsigned_tx(unsigned_tx).unwrap();
    psbt.inputs[0].final_script_sig = Some(Script::from(vec![1, 2]));
    psbt.inputs[1].final_script_witness = Some(Witness::from_vec(vec![vec![3], vec![], vec![4]]));
    psbt
}

fn assert_agrees(psbt: psbt::PartiallySignedTransaction) {
    let extracted = from_psbt(&psbt).extract_tx();
    assert_eq!(extracted, from_bitcoin(&psbt.extract_tx()));
}

#[test]
fn final_scripts_and_witnesses_are_filled_in() {
    let tx = from_psbt(&signed()).extract_tx();
    assert_eq!(tx.version, 2);
    assert_eq!(tx.lock_time, 700_000);
    assert_eq!(tx.input.len(), 3);
    assert_eq!(tx.input[0].script_sig, vec![1, 2]);
    assert_eq!(tx.input[0].witness, Vec::<Vec<u8>>::new());
    assert_eq!(tx.input[1].script_sig, Vec::<u8>::new());
    assert_eq!(tx.input[1].witness, vec![vec![3], vec![], vec![4]]);
    assert_eq!(tx.input[2].txid, [3; 32]);
    assert_eq!(tx.input[2].vout, 3);
    assert_eq!(tx.output[0].value, 50_000);
    assert_agrees(signed());
}

#[test]
fn every_version_gives_its_transaction() {
    let mut psbt = signed();
    psbt.version = 1;
    assert_agrees(psbt);
}

#[test]
fn scripts_of_the_unsigned_transaction_are_replaced() {
    let mut psbt = signed();
    for txin in psbt.unsigned_tx.input.iter_mut() {
        txin.script_sig = Script::from(vec![0xaa]);
        txin.witness = Witness::from_vec(vec![vec![0xbb]]);
    }
    assert_eq!(from_psbt(&psbt).extract_tx(), from_psbt(&signed()).extract_tx());
    assert_agrees(psbt);
}

#[test]
fn inputs_without_a_counterpart_stay() {
    let mut psbt = signed();
    psbt.unsigned_tx.input[2].script_sig = Script::from(vec![0xcc]);
    psbt.inputs.truncate(1);
    assert_eq!(from_psbt(&psbt).extract_tx().input[2].script_sig, vec![0xcc]);
    assert_agrees(psbt);
    let mut psbt = signed();
    psbt.unsigned_tx.input.truncate(1);
    assert_agrees(psbt);
    let mut psbt = signed();
    psbt.unsigned_tx.input.clear();
    assert_agrees(psbt);
}
