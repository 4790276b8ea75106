//! Transactions: the reward that a block producer mints, and spends that are
//! assembled from the unspent outputs of the spender.

use vstd::prelude::*;
use crate::digest::{hex_digest, hex_digest_of, is_hex_digest};
use crate::encoding::{encode_transaction, transaction_encoding};
use crate::error::Error;
use crate::tx::{
    TXInput, TXOutput, TxInputModel, TxOutputModel, inputs_view, is_coinbase_input, outputs_view,
    total_value, COINBASE_VOUT,
};

verus! {

/// The value that a coinbase transaction grants.
pub const SUBSIDY: i32 = 100;

/// A transfer of value: the outputs it consumes and the outputs it creates.
#[derive(Debug, Clone, PartialEq, Eq)]
pub struct Transaction {
    /// Hexadecimal digest of the transaction; empty until it is finalized.
    pub id: String,
    pub vin: Vec<TXInput>,
    pub vout: Vec<TXOutput>,
}

/// Mathematical model of a [`Transaction`].
pub ghost struct TransactionModel {
    pub id: Seq<char>,
    pub vin: Seq<TxInputModel>,
    pub vout: Seq<TxOutputModel>,
}

impl View for Transaction {
    type V = TransactionModel;

    open spec fn view(&self) -> TransactionModel {
        TransactionModel {
            id: self.id@,
            vin: inputs_view(self.vin@),
            vout: outputs_view(self.vout@),
        }
    }
}

/// The models of a sequence of transactions, in order.
pub open spec fn transactions_view(v: Seq<Transaction>) -> Seq<TransactionModel> {
    v.map_values(|t: Transaction| t@)
}

/// The unspent outputs that an index reports for an owner: for each source
/// transaction its id and the indices of the outputs, in the index's order.
pub open spec fn claims_view(v: Seq<(String, Vec<i32>)>) -> Seq<(Seq<char>, Seq<i32>)> {
    v.map_values(|c: (String, Vec<i32>)| (c.0@, c.1@))
}

/// The id of a transaction with the given inputs and outputs: the digest of
/// its encoding with the id cleared. `None` where that encoding fails or is
/// too long to be hashed.
pub open spec fn transaction_id(vin: Seq<TxInputModel>, vout: Seq<TxOutputModel>) -> Option<
    Seq<char>,
> {
    match transaction_encoding(Seq::<char>::empty(), vin, vout) {
        Some(bytes) => hex_digest_of(bytes),
        None => None,
    }
}

/// Whether the id of a transaction is the one that its inputs and outputs
/// give, in the form of a digest.
pub open spec fn finalized(tx: TransactionModel) -> bool {
    &&& transaction_id(tx.vin, tx.vout) == Some(tx.id)
    &&& is_hex_digest(tx.id)
}

/// The memo of a coinbase input: the one given, or `Reward to '<to>'` where
/// none is given.
pub open spec fn coinbase_memo(to: Seq<char>, data: Seq<char>) -> Seq<char> {
    if data.len() == 0 {
        "Reward to '"@ + to + "'"@
    } else {
        data
    }
}

/// The single input of a coinbase transaction.
pub open spec fn coinbase_inputs(to: Seq<char>, data: Seq<char>) -> Seq<TxInputModel> {
    seq![
        TxInputModel {
            txid: Seq::<char>::empty(),
            vout: COINBASE_VOUT as int,
            script_sig: coinbase_memo(to, data),
        },
    ]
}

/// The single output of a coinbase transaction.
pub open spec fn coinbase_outputs(to: Seq<char>) -> Seq<TxOutputModel> {
    seq![TxOutputModel { value: SUBSIDY as int, script_pub_key: to }]
}

/// The inputs that claim the outputs `indices` of the transaction `txid`.
pub open spec fn claimed_inputs(from: Seq<char>, txid: Seq<char>, indices: Seq<i32>) -> Seq<
    TxInputModel,
> {
    indices.map_values(|ix: i32| TxInputModel { txid, vout: ix as int, script_sig: from })
}

/// The inputs of a spend: one for each reported output, in the order of the
/// report.
pub open spec fn spend_inputs(from: Seq<char>, claims: Seq<(Seq<char>, Seq<i32>)>) -> Seq<
    TxInputModel,
>
    decreases claims.len(),
{
    if claims.len() == 0 {
        Seq::empty()
    } else {
        spend_inputs(from, claims.drop_last()) + claimed_inputs(
            from,
            claims.last().0,
            claims.last().1,
        )
    }
}

/// The outputs of a spend: the amount for the recipient, and the rest of
/// what is available, if any, back to the spender.
pub open spec fn spend_outputs(from: Seq<char>, to: Seq<char>, amount: int, available: int) -> Seq<
    TxOutputModel,
> {
    if available > amount {
        seq![
            TxOutputModel { value: amount, script_pub_key: to },
            TxOutputModel { value: available - amount, script_pub_key: from },
        ]
    } else {
        seq![TxOutputModel { value: amount, script_pub_key: to }]
    }
}

/// The transaction, not yet given an id, by which `from` pays `amount` to
/// `to` out of the reported outputs `claims` of total value `available`.
pub open spec fn spend_model(
    from: Seq<char>,
    to: Seq<char>,
    amount: int,
    available: int,
    claims: Seq<(Seq<char>, Seq<i32>)>,
) -> TransactionModel {
    TransactionModel {
        id: Seq::empty(),
        vin: spend_inputs(from, claims),
        vout: spend_outputs(from, to, amount, available),
    }
}

/// The coinbase transaction for `to` with the memo `data`, not yet given an
/// id.
pub open spec fn coinbase_model(to: Seq<char>, data: Seq<char>) -> TransactionModel {
    TransactionModel {
        id: Seq::empty(),
        vin: coinbase_inputs(to, data),
        vout: coinbase_outputs(to),
    }
}

/// The error that reports a balance of `available`.
pub open spec fn insufficient(available: i32) -> Error {
    Error::InsufficientBalance { available }
}

impl Transaction {
    /// Assembles, without an id, the transaction by which `from` pays `amount`
    /// to `to`, out of what the index of unspent outputs reported for `from`:
    /// their total value `available` and, for each source transaction, its id
    /// and output indices. Every reported output becomes an input, in the
    /// reported order. Fails where `available` is less than `amount`.
    pub fn spend_draft(
        from: &str,
        to: &str,
        amount: i32,
        available: i32,
        outputs: &Vec<(String, Vec<i32>)>,
    ) -> (res: Result<Transaction, Error>)
        requires
            available - amount <= i32::MAX,
        ensures
            available < amount ==> res == Err::<Transaction, Error>(insufficient(available)),
            available >= amount ==> (res matches Ok(tx) && tx@ == spend_model(
                from@,
                to@,
                amount as int,
                available as int,
                claims_view(outputs@),
            )),
    {
        if available < amount {
            return Err(Error::InsufficientBalance { available });
        }
        let mut vin: Vec<TXInput> = Vec::new();
        let mut i: usize = 0;
        while i < outputs.len()
            invariant
                i <= outputs.len(),
                inputs_view(vin@) == spend_inputs(from@, claims_view(outputs@).take(i as int)),
            decreases outputs.len() - i,
        {
            let ghost before = inputs_view(vin@);
            let ghost claims = claims_view(outputs@);
            let indices = &outputs[i].1;
            let mut j: usize = 0;
            while j < indices.len()
                invariant
                    i < outputs.len(),
                    indices == &outputs[i as int].1,
                    j <= indices.len(),
                    inputs_view(vin@) == before + claimed_inputs(
                        from@,
                        outputs[i as int].0@,
                        indices@.take(j as int),
                    ),
                decreases indices.len() - j,
            {
                let input = TXInput {
                    txid: outputs[i].0.clone(),
                    vout: indices[j],
                    script_sig: from.to_owned(),
                };
                proof {
                    let f = |ix: i32|
                        TxInputModel { txid: outputs[i as int].0@, vout: ix as int, script_sig: from@ };
                    assert(indices@.take(j + 1) =~= indices@.take(j as int).push(indices@[j as int]));
                    assert(indices@.take(j + 1).map_values(f) =~= indices@.take(j as int).map_values(
                        f,
                    ).push(input@));
                    assert(inputs_view(vin@.push(input)) =~= inputs_view(vin@).push(input@));
                }
                vin.push(input);
                j += 1;
            }
            proof {
                assert(indices@.take(j as int) =~= indices@);
                assert(claims.take(i + 1).drop_last() =~= claims.take(i as int));
                assert(claims.take(i + 1).last() == (outputs[i as int].0@, outputs[i as int].1@));
            }
            i += 1;
        }
        proof {
            assert(claims_view(outputs@).take(i as int) =~= claims_view(outputs@));
        }
        let mut vout: Vec<TXOutput> = Vec::new();
        vout.push(TXOutput { value: amount, script_pub_key: to.to_owned() });
        if available > amount {
            vout.push(TXOutput { value: available - amount, script_pub_key: from.to_owned() });
        }
        assert(outputs_view(vout@) =~= spend_outputs(
            from@,
            to@,
            amount as int,
            available as int,
        ));
        Ok(Transaction { id: String::new(), vin, vout })
    }

    /// Builds the transaction by which `from` pays `amount` to `to`, out of
    /// what the index of unspent outputs reported for `from`: the draft that
    /// `spend_draft` assembles, with its id set.
    #[allow(non_snake_case)]
    pub fn new_UTXO(
        from: &str,
        to: &str,
        amount: i32,
        available: i32,
        outputs: &Vec<(String, Vec<i32>)>,
    ) -> (res: Result<Transaction, Error>)
        requires
            available - amount <= i32::MAX,
        ensures
            available < amount ==> res == Err::<Transaction, Error>(insufficient(available)),
            available >= amount ==> match res {
                Ok(tx) => {
                    &&& tx@.vin == spend_inputs(from@, claims_view(outputs@))
                    &&& tx@.vout == spend_outputs(from@, to@, amount as int, available as int)
                    &&& finalized(tx@)
                },
                Err(e) => {
                    &&& e == Error::Encoding
                    &&& transaction_id(
                        spend_inputs(from@, claims_view(outputs@)),
                        spend_outputs(from@, to@, amount as int, available as int),
                    ).is_none()
                },
            },
    {
        let mut tx = Transaction::spend_draft(from, to, amount, available, outputs)?;
        match tx.set_id() {
            Ok(()) => Ok(tx),
            Err(e) => Err(e),
        }
    }

    /// Assembles, without an id, the transaction that grants the reward
    /// `SUBSIDY` to `to`. Its single input carries `data` as a memo, or
    /// `Reward to '<to>'` where `data` is empty.
    pub fn coinbase_draft(to: String, data: String) -> (res: Transaction)
        ensures
            res@ == coinbase_model(to@, data@),
    {
        let memo = if data.as_str().is_empty() {
            String::from_str("Reward to '").concat(to.as_str()).concat("'")
        } else {
            data
        };
        let mut vin: Vec<TXInput> = Vec::new();
        vin.push(TXInput { txid: String::new(), vout: COINBASE_VOUT, script_sig: memo });
        let mut vout: Vec<TXOutput> = Vec::new();
        vout.push(TXOutput { value: SUBSIDY, script_pub_key: to });
        assert(inputs_view(vin@) =~= coinbase_inputs(to@, data@));
        assert(outputs_view(vout@) =~= coinbase_outputs(to@));
        Transaction { id: String::new(), vin, vout }
    }

    /// Builds the transaction that grants the reward `SUBSIDY` to `to`: the
    /// draft that `coinbase_draft` assembles, with its id set.
    pub fn new_coinbase(to: String, data: String) -> (res: Result<Transaction, Error>)
        ensures
            match res {
                Ok(tx) => {
                    &&& tx@.vin == coinbase_inputs(to@, data@)
                    &&& tx@.vout == coinbase_outputs(to@)
                    &&& finalized(tx@)
                },
                Err(e) => {
                    &&& e == Error::Encoding
                    &&& transaction_id(coinbase_inputs(to@, data@), coinbase_outputs(to@)).is_none()
                },
            },
    {
        let mut tx = Transaction::coinbase_draft(to, data);
        match tx.set_id() {
            Ok(()) => Ok(tx),
            Err(e) => Err(e),
        }
    }

    /// Sets the id to the digest of the transaction's encoding with the id
    /// cleared. Where that encoding fails or is too long to be hashed, the
    /// transaction stays as it was.
    pub fn set_id(&mut self) -> (res: Result<(), Error>)
        ensures
            final(self)@.vin == old(self)@.vin,
            final(self)@.vout == old(self)@.vout,
            match res {
                Ok(_) => finalized(final(self)@),
                Err(e) => {
                    &&& e == Error::Encoding
                    &&& transaction_id(old(self)@.vin, old(self)@.vout).is_none()
                    &&& final(self)@ == old(self)@
                },
            },
    {
        let cleared = String::new();
        match encode_transaction(&cleared, &self.vin, &self.vout) {
            Ok(bytes) => match hex_digest(bytes.as_slice()) {
                Some(hash) => {
                    self.id = hash;
                    Ok(())
                },
                None => Err(Error::Encoding),
            },
            Err(_) => Err(Error::Encoding),
        }
    }

    /// Tells whether this is a coinbase transaction: one whose only input is
    /// the sentinel with an empty id and the index `-1`.
    pub fn is_coinbase(&self) -> (res: bool)
        ensures
            res == (self@.vin.len() == 1 && is_coinbase_input(self@.vin[0])),
    {
        self.vin.len() == 1 && self.vin[0].txid.as_str().is_empty() && self.vin[0].vout
            == COINBASE_VOUT
    }
}

/// The id of a finalized transaction is a function of its inputs and outputs:
/// two finalized transactions with the same inputs and the same outputs have
/// the same id.
pub proof fn lemma_id_determined_by_contents(a: TransactionModel, b: TransactionModel)
    requires
        finalized(a),
        finalized(b),
        a.vin == b.vin,
        a.vout == b.vout,
    ensures
        a.id == b.id,
{
}

/// The outputs of a spend that the balance covers sum to exactly what was
/// available: the amount and the change, or the amount alone.
pub proof fn lemma_spend_conserves_value(
    from: Seq<char>,
    to: Seq<char>,
    amount: int,
    available: int,
)
    requires
        amount <= available,
    ensures
        total_value(spend_outputs(from, to, amount, available)) == available,
{
    let outs = spend_outputs(from, to, amount, available);
    if available > amount {
        assert(outs.drop_last() =~= seq![TxOutputModel { value: amount, script_pub_key: to }]);
        assert(outs.drop_last().drop_last() =~= Seq::<TxOutputModel>::empty());
        reveal_with_fuel(total_value, 3);
    } else {
        assert(outs.drop_last() =~= Seq::<TxOutputModel>::empty());
        reveal_with_fuel(total_value, 2);
    }
}

} // verus!
