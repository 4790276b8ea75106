//! Inputs and outputs of a transaction.

use vstd::prelude::*;

verus! {

/// The value that a coinbase input carries as its output index.
pub const COINBASE_VOUT: i32 = -1;

/// A reference to an output of an earlier transaction.
#[derive(Debug, Clone, PartialEq, Eq)]
pub struct TXInput {
    /// Id of the transaction that holds the output; empty in a coinbase input.
    pub txid: String,
    /// Index of the output in that transaction; `-1` in a coinbase input.
    pub vout: i32,
    /// Identity of the spender, or the memo of a coinbase input.
    pub script_sig: String,
}

/// An amount granted to an owner.
#[derive(Debug, Clone, PartialEq, Eq)]
pub struct TXOutput {
    pub value: i32,
    /// Identity of the owner.
    pub script_pub_key: String,
}

/// Mathematical model of a [`TXInput`].
pub ghost struct TxInputModel {
    pub txid: Seq<char>,
    pub vout: int,
    pub script_sig: Seq<char>,
}

/// Mathematical model of a [`TXOutput`].
pub ghost struct TxOutputModel {
    pub value: int,
    pub script_pub_key: Seq<char>,
}

impl View for TXInput {
    type V = TxInputModel;

    open spec fn view(&self) -> TxInputModel {
        TxInputModel { txid: self.txid@, vout: self.vout as int, script_sig: self.script_sig@ }
    }
}

impl View for TXOutput {
    type V = TxOutputModel;

    open spec fn view(&self) -> TxOutputModel {
        TxOutputModel { value: self.value as int, script_pub_key: self.script_pub_key@ }
    }
}

/// The models of a sequence of inputs, in order.
pub open spec fn inputs_view(v: Seq<TXInput>) -> Seq<TxInputModel> {
    v.map_values(|i: TXInput| i@)
}

/// The models of a sequence of outputs, in order.
pub open spec fn outputs_view(v: Seq<TXOutput>) -> Seq<TxOutputModel> {
    v.map_values(|o: TXOutput| o@)
}

/// Whether an input is the sentinel that only a coinbase transaction holds.
pub open spec fn is_coinbase_input(i: TxInputModel) -> bool {
    i.txid.len() == 0 && i.vout == -1
}

/// The sum of the values of a sequence of outputs.
pub open spec fn total_value(outs: Seq<TxOutputModel>) -> int
    decreases outs.len(),
{
    if outs.len() == 0 {
        0
    } else {
        total_value(outs.drop_last()) + outs.last().value
    }
}

} // verus!
