//! Transaction records and the counterparty history they are read against.

use vstd::prelude::*;

verus! {

/// What contracts see of one input or output: who, and how much.
pub struct TransferView {
    pub address: Seq<char>,
    pub value: nat,
}

/// One side of a transfer: an address and the value that moves from or to it.
#[derive(Debug, Clone)]
pub struct Transfer {
    pub address: String,
    pub value: u64,
}

/// One input of a transaction: the address the funds come from and their value.
pub type TxInput = Transfer;

/// One output of a transaction: the address the funds go to and their value.
pub type TxOutput = Transfer;

impl View for Transfer {
    type V = TransferView;

    open spec fn view(&self) -> TransferView {
        TransferView { address: self.address@, value: self.value as nat }
    }
}

/// What contracts see of a list of inputs or outputs.
pub open spec fn views(parties: Seq<Transfer>) -> Seq<TransferView> {
    parties.map_values(|t: Transfer| t@)
}

/// What contracts see of a transaction record.
pub struct TransactionView {
    pub chain_id: nat,
    pub tx_id: Seq<char>,
    pub inputs: Seq<TransferView>,
    pub outputs: Seq<TransferView>,
    pub timestamp: nat,
    pub fee: nat,
}

/// A transaction as the ledger reader hands it to the engine.
///
/// The engine only ever borrows a record: nothing in this crate changes one.
#[derive(Debug, Clone)]
pub struct TransactionRecord {
    pub chain_id: u32,
    pub tx_id: String,
    pub inputs: Vec<TxInput>,
    pub outputs: Vec<TxOutput>,
    pub timestamp: u64,
    pub fee: u64,
}

impl View for TransactionRecord {
    type V = TransactionView;

    open spec fn view(&self) -> TransactionView {
        TransactionView {
            chain_id: self.chain_id as nat,
            tx_id: self.tx_id@,
            inputs: views(self.inputs@),
            outputs: views(self.outputs@),
            timestamp: self.timestamp as nat,
            fee: self.fee as nat,
        }
    }
}

/// What contracts see of a counterparty profile.
pub struct ProfileView {
    pub address: Seq<char>,
    pub risk: nat,
    pub recent_tx_count: nat,
}

/// What is known of one counterparty: its risk in millionths and how many
/// transactions it took part in during the rolling window.
#[derive(Debug, Clone)]
pub struct CounterpartyProfile {
    pub address: String,
    pub risk: u64,
    pub recent_tx_count: u64,
}

impl View for CounterpartyProfile {
    type V = ProfileView;

    open spec fn view(&self) -> ProfileView {
        ProfileView {
            address: self.address@,
            risk: self.risk as nat,
            recent_tx_count: self.recent_tx_count as nat,
        }
    }
}

/// What contracts see of a risk table.
pub open spec fn rows(table: Seq<CounterpartyProfile>) -> Seq<ProfileView> {
    table.map_values(|p: CounterpartyProfile| p@)
}

/// The counterparty history as it stood when a scoring run began.
///
/// `risk_table` is `None` while the table has not been loaded.
#[derive(Debug, Clone)]
pub struct HistorySnapshot {
    pub risk_table: Option<Vec<CounterpartyProfile>>,
}

impl View for HistorySnapshot {
    type V = Option<Seq<ProfileView>>;

    open spec fn view(&self) -> Option<Seq<ProfileView>> {
        match self.risk_table {
            Some(table) => Some(rows(table@)),
            None => None,
        }
    }
}

/// Sum of the values of `parties`.
pub open spec fn sum_values(parties: Seq<TransferView>) -> nat
    decreases parties.len(),
{
    if parties.len() == 0 {
        0
    } else {
        sum_values(parties.drop_last()) + parties.last().value
    }
}

/// Largest value among `parties`, zero where there are none.
pub open spec fn max_value(parties: Seq<TransferView>) -> nat
    decreases parties.len(),
{
    if parties.len() == 0 {
        0
    } else {
        let rest = max_value(parties.drop_last());
        if parties.last().value > rest {
            parties.last().value
        } else {
            rest
        }
    }
}

/// Number of `parties` whose value lies in `floor <= value < ceiling`.
pub open spec fn count_in_band(parties: Seq<TransferView>, floor: nat, ceiling: nat) -> nat
    decreases parties.len(),
{
    if parties.len() == 0 {
        0
    } else {
        let rest = count_in_band(parties.drop_last(), floor, ceiling);
        if floor <= parties.last().value < ceiling {
            rest + 1
        } else {
            rest
        }
    }
}

/// Whether one of `parties` has no address at all.
pub open spec fn has_blank_address(parties: Seq<TransferView>) -> bool {
    exists|i: int| 0 <= i < parties.len() && #[trigger] parties[i].address.len() == 0
}

/// The fee that a transaction with these inputs and outputs pays: what the
/// inputs bring beyond what the outputs take, zero where they bring no more,
/// and the largest 64-bit number where the difference exceeds it.
pub open spec fn spec_implied_fee(inputs: Seq<TransferView>, outputs: Seq<TransferView>) -> nat {
    let paid_in = sum_values(inputs);
    let paid_out = sum_values(outputs);
    if paid_in <= paid_out {
        0
    } else if paid_in - paid_out > u64::MAX {
        u64::MAX as nat
    } else {
        (paid_in - paid_out) as nat
    }
}

/// Sum of the values of `parties`.
fn total_value(parties: &Vec<Transfer>) -> (r: u128)
    ensures
        r == sum_values(views(parties@)),
{
    let ghost all = views(parties@);
    let mut acc: u128 = 0;
    let mut i: usize = 0;
    while i < parties.len()
        invariant
            all == views(parties@),
            0 <= i <= parties.len(),
            acc == sum_values(all.take(i as int)),
            acc <= i * 0xffff_ffff_ffff_ffff,
        decreases parties.len() - i,
    {
        proof {
            assert(all.take(i + 1).drop_last() =~= all.take(i as int));
            assert(all.take(i + 1).last() == parties@[i as int]@);
            assert((i + 1) * 0xffff_ffff_ffff_ffff <= 0xffff_ffff_ffff_ffff * 0xffff_ffff_ffff_ffff)
                by (nonlinear_arith)
                requires
                    i + 1 <= 0xffff_ffff_ffff_ffff,
            ;
            assert((i + 1) * 0xffff_ffff_ffff_ffff == i * 0xffff_ffff_ffff_ffff
                + 0xffff_ffff_ffff_ffff) by (nonlinear_arith);
        }
        acc = acc + parties[i].value as u128;
        i = i + 1;
    }
    proof {
        assert(all.take(i as int) =~= all);
    }
    acc
}

impl TransactionRecord {
    /// The fee that a transaction with these inputs and outputs pays.
    pub fn implied_fee(inputs: &Vec<TxInput>, outputs: &Vec<TxOutput>) -> (r: u64)
        ensures
            r == spec_implied_fee(views(inputs@), views(outputs@)),
    {
        let paid_in = total_value(inputs);
        let paid_out = total_value(outputs);
        if paid_in <= paid_out {
            0
        } else if paid_in - paid_out > u64::MAX as u128 {
            u64::MAX
        } else {
            (paid_in - paid_out) as u64
        }
    }

    /// Total value of the outputs.
    pub open spec fn spec_total_output(&self) -> nat {
        sum_values(self@.outputs)
    }

    /// Total value of the outputs, or `None` where it does not fit in 64 bits.
    pub fn total_output(&self) -> (r: Option<u64>)
        ensures
            r is Some <==> self.spec_total_output() <= u64::MAX,
            r matches Some(v) ==> v == self.spec_total_output(),
    {
        let total = total_value(&self.outputs);
        if total > u64::MAX as u128 {
            None
        } else {
            Some(total as u64)
        }
    }
}

} // verus!
