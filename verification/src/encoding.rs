//! The canonical byte encoding of the payloads that are hashed.
//!
//! The encoding is the one that `bincode::serialize` gives: the fields of a
//! value in their declared order, integers in fixed width and little endian,
//! a string or a sequence behind its length in eight bytes.

use vstd::prelude::*;
use crate::tx::{TXInput, TXOutput, TxInputModel, TxOutputModel, inputs_view, outputs_view};
use crate::transaction::{Transaction, TransactionModel, transactions_view};

verus! {

/// The error of `bincode`, which nothing here looks into.
#[verifier::external_type_specification]
#[verifier::external_body]
pub struct ExBincodeErrorKind(bincode::ErrorKind);

/// The bytes that encode a transaction with the given id, inputs and
/// outputs; `None` where the encoder fails.
pub uninterp spec fn transaction_encoding(
    id: Seq<char>,
    vin: Seq<TxInputModel>,
    vout: Seq<TxOutputModel>,
) -> Option<Seq<u8>>;

/// The bytes that encode the hashed part of a block: the previous hash, the
/// transactions, the timestamp, the difficulty target and the nonce; `None`
/// where the encoder fails.
pub uninterp spec fn block_encoding(
    prev_hash: Seq<char>,
    transactions: Seq<TransactionModel>,
    timestamp: int,
    target: int,
    nonce: int,
) -> Option<Seq<u8>>;

/// Calls `bincode::serialize` on the triple of a transaction's id, inputs and
/// outputs, each input and output handed over as the tuple of its fields in
/// their declared order. Whether the call succeeds and the bytes it gives
/// depend on these values alone, and are named `transaction_encoding`.
#[verifier::external_body]
pub(crate) fn encode_transaction(id: &String, vin: &Vec<TXInput>, vout: &Vec<TXOutput>) -> (res:
    Result<Vec<u8>, Box<bincode::ErrorKind>>)
    ensures
        match res {
            Ok(bytes) => transaction_encoding(id@, inputs_view(vin@), outputs_view(vout@))
                == Some(bytes@),
            Err(_) => transaction_encoding(id@, inputs_view(vin@), outputs_view(vout@)).is_none(),
        },
{
    let ins: Vec<(&String, i32, &String)> =
        vin.iter().map(|i| (&i.txid, i.vout, &i.script_sig)).collect();
    let outs: Vec<(i32, &String)> = vout.iter().map(|o| (o.value, &o.script_pub_key)).collect();
    bincode::serialize(&(id, ins, outs))
}

/// Calls `bincode::serialize` on the tuple of previous hash, transactions,
/// timestamp, target and nonce, each transaction handed over as the tuples of
/// its fields in their declared order. Whether the call succeeds and the bytes
/// it gives depend on these values alone, and are named `block_encoding`.
#[verifier::external_body]
pub(crate) fn encode_block(
    prev_hash: &String,
    transactions: &Vec<Transaction>,
    timestamp: u128,
    target: usize,
    nonce: i32,
) -> (res: Result<Vec<u8>, Box<bincode::ErrorKind>>)
    ensures
        match res {
            Ok(bytes) => block_encoding(
                prev_hash@,
                transactions_view(transactions@),
                timestamp as int,
                target as int,
                nonce as int,
            ) == Some(bytes@),
            Err(_) => block_encoding(
                prev_hash@,
                transactions_view(transactions@),
                timestamp as int,
                target as int,
                nonce as int,
            ).is_none(),
        },
{
    let txs: Vec<(&String, Vec<(&String, i32, &String)>, Vec<(i32, &String)>)> =
        transactions.iter().map(|t| (
            &t.id,
            t.vin.iter().map(|i| (&i.txid, i.vout, &i.script_sig)).collect(),
            t.vout.iter().map(|o| (o.value, &o.script_pub_key)).collect(),
        )).collect();
    bincode::serialize(&(prev_hash, txs, timestamp, target, nonce))
}

} // verus!
