//! Feature extraction: the numeric summary of a transaction that rules and
//! scoring models read.

use vstd::prelude::*;
use vstd::string::StringExecFns;
use crate::aicrm::SCALE;
use crate::aicrm::error::{Error, Result};
use crate::aicrm::transaction::{
    max_value, rows, sum_values, views, CounterpartyProfile, HistorySnapshot, ProfileView,
    TransactionRecord, TransactionView, Transfer, TransferView,
};

verus! {

/// The names of the features.
#[derive(Debug, Clone, Copy, PartialEq, Eq, Structural)]
pub enum Feature {
    /// Number of inputs.
    FanInCount,
    /// Number of outputs.
    FanOutCount,
    /// Total value of the outputs, held at the largest 64-bit number where it exceeds it.
    TotalValue,
    /// Largest single output value.
    MaxOutputValue,
    /// Fee paid.
    Fee,
    /// Highest recorded risk among all sources and destinations, in millionths.
    CounterpartyRiskMax,
    /// Highest recent transaction count recorded for any source.
    SourceActivityMax,
}

/// A risk recorded above one counts as one.
pub open spec fn capped_risk(risk: nat) -> nat {
    if risk > SCALE {
        SCALE as nat
    } else {
        risk
    }
}

/// Highest risk that `table` records under `address`, zero where it records none.
pub open spec fn known_risk(table: Seq<ProfileView>, address: Seq<char>) -> nat
    decreases table.len(),
{
    if table.len() == 0 {
        0
    } else {
        let rest = known_risk(table.drop_last(), address);
        let last = table.last();
        if last.address == address && capped_risk(last.risk) > rest {
            capped_risk(last.risk)
        } else {
            rest
        }
    }
}

/// Highest recent transaction count that `table` records under `address`,
/// zero where it records none.
pub open spec fn known_activity(table: Seq<ProfileView>, address: Seq<char>) -> nat
    decreases table.len(),
{
    if table.len() == 0 {
        0
    } else {
        let rest = known_activity(table.drop_last(), address);
        let last = table.last();
        if last.address == address && last.recent_tx_count > rest {
            last.recent_tx_count
        } else {
            rest
        }
    }
}

/// Highest known risk among `parties`.
pub open spec fn max_known_risk(parties: Seq<TransferView>, table: Seq<ProfileView>) -> nat
    decreases parties.len(),
{
    if parties.len() == 0 {
        0
    } else {
        let rest = max_known_risk(parties.drop_last(), table);
        let here = known_risk(table, parties.last().address);
        if here > rest {
            here
        } else {
            rest
        }
    }
}

/// Highest known activity among `parties`.
pub open spec fn max_known_activity(parties: Seq<TransferView>, table: Seq<ProfileView>) -> nat
    decreases parties.len(),
{
    if parties.len() == 0 {
        0
    } else {
        let rest = max_known_activity(parties.drop_last(), table);
        let here = known_activity(table, parties.last().address);
        if here > rest {
            here
        } else {
            rest
        }
    }
}

/// The value of feature `feature` for transaction `tx` read against `table`.
pub open spec fn feature_value(tx: TransactionView, table: Seq<ProfileView>, feature: Feature) -> nat {
    match feature {
        Feature::FanInCount => tx.inputs.len(),
        Feature::FanOutCount => tx.outputs.len(),
        Feature::TotalValue => if sum_values(tx.outputs) > u64::MAX {
            u64::MAX as nat
        } else {
            sum_values(tx.outputs)
        },
        Feature::MaxOutputValue => max_value(tx.outputs),
        Feature::Fee => tx.fee,
        Feature::CounterpartyRiskMax => {
            let sources = max_known_risk(tx.inputs, table);
            let destinations = max_known_risk(tx.outputs, table);
            if sources > destinations {
                sources
            } else {
                destinations
            }
        },
        Feature::SourceActivityMax => max_known_activity(tx.inputs, table),
    }
}

/// The feature vector of transaction `tx` read against `table`.
pub open spec fn spec_features(tx: TransactionView, table: Seq<ProfileView>) -> Map<Feature, nat> {
    Map::new(|f: Feature| true, |f: Feature| feature_value(tx, table, f))
}

/// What [`extract`] returns: the features where the risk table is there,
/// `InsufficientData` where it is not.
pub open spec fn spec_extract(tx: TransactionView, history: Option<Seq<ProfileView>>) -> core::result::Result<Map<Feature, nat>, Error> {
    match history {
        Some(table) => Ok(spec_features(tx, table)),
        None => Err(Error::InsufficientData),
    }
}

/// The features of one transaction, each under its name.
///
/// A vector is computed once and never changed; it is small and freely copied.
#[derive(Debug, Clone, Copy, PartialEq, Eq, Structural)]
pub struct FeatureVector {
    pub fan_in_count: u64,
    pub fan_out_count: u64,
    pub total_value: u64,
    pub max_output_value: u64,
    pub fee: u64,
    pub counterparty_risk_max: u64,
    pub source_activity_max: u64,
}

impl View for FeatureVector {
    type V = Map<Feature, nat>;

    open spec fn view(&self) -> Map<Feature, nat> {
        Map::new(
            |f: Feature| true,
            |f: Feature|
                match f {
                    Feature::FanInCount => self.fan_in_count as nat,
                    Feature::FanOutCount => self.fan_out_count as nat,
                    Feature::TotalValue => self.total_value as nat,
                    Feature::MaxOutputValue => self.max_output_value as nat,
                    Feature::Fee => self.fee as nat,
                    Feature::CounterpartyRiskMax => self.counterparty_risk_max as nat,
                    Feature::SourceActivityMax => self.source_activity_max as nat,
                },
        )
    }
}

impl Feature {
    /// The name under which the feature is reported.
    pub open spec fn spec_name(self) -> Seq<char> {
        match self {
            Feature::FanInCount => "fan_in_count"@,
            Feature::FanOutCount => "fan_out_count"@,
            Feature::TotalValue => "total_value"@,
            Feature::MaxOutputValue => "max_output_value"@,
            Feature::Fee => "fee"@,
            Feature::CounterpartyRiskMax => "counterparty_risk_max"@,
            Feature::SourceActivityMax => "source_activity_max"@,
        }
    }

    /// The name under which the feature is reported.
    pub fn name(self) -> (r: &'static str)
        ensures
            r@ == self.spec_name(),
    {
        match self {
            Feature::FanInCount => "fan_in_count",
            Feature::FanOutCount => "fan_out_count",
            Feature::TotalValue => "total_value",
            Feature::MaxOutputValue => "max_output_value",
            Feature::Fee => "fee",
            Feature::CounterpartyRiskMax => "counterparty_risk_max",
            Feature::SourceActivityMax => "source_activity_max",
        }
    }
}

impl FeatureVector {
    /// The value stored under `feature`.
    pub fn get(&self, feature: Feature) -> (r: u64)
        ensures
            r == self@[feature],
    {
        match feature {
            Feature::FanInCount => self.fan_in_count,
            Feature::FanOutCount => self.fan_out_count,
            Feature::TotalValue => self.total_value,
            Feature::MaxOutputValue => self.max_output_value,
            Feature::Fee => self.fee,
            Feature::CounterpartyRiskMax => self.counterparty_risk_max,
            Feature::SourceActivityMax => self.source_activity_max,
        }
    }
}

/// Highest risk and highest activity that `table` records under `address`.
fn look_up(table: &Vec<CounterpartyProfile>, address: &String) -> (r: (u64, u64))
    ensures
        r.0 == known_risk(rows(table@), address@),
        r.1 == known_activity(rows(table@), address@),
{
    let ghost all = rows(table@);
    let mut risk: u64 = 0;
    let mut activity: u64 = 0;
    let mut i: usize = 0;
    while i < table.len()
        invariant
            all == rows(table@),
            0 <= i <= table.len(),
            risk == known_risk(all.take(i as int), address@),
            activity == known_activity(all.take(i as int), address@),
        decreases table.len() - i,
    {
        proof {
            assert(all.take(i + 1).drop_last() =~= all.take(i as int));
            assert(all.take(i + 1).last() == table@[i as int]@);
        }
        let row = &table[i];
        if row.address == *address {
            let capped: u64 = if row.risk > SCALE {
                SCALE
            } else {
                row.risk
            };
            if capped > risk {
                risk = capped;
            }
            if row.recent_tx_count > activity {
                activity = row.recent_tx_count;
            }
        }
        i = i + 1;
    }
    proof {
        assert(all.take(i as int) =~= all);
    }
    (risk, activity)
}

/// Highest known risk and highest known activity among `parties`.
fn exposure(parties: &Vec<Transfer>, table: &Vec<CounterpartyProfile>) -> (r: (u64, u64))
    ensures
        r.0 == max_known_risk(views(parties@), rows(table@)),
        r.1 == max_known_activity(views(parties@), rows(table@)),
{
    let ghost all = views(parties@);
    let mut risk: u64 = 0;
    let mut activity: u64 = 0;
    let mut i: usize = 0;
    while i < parties.len()
        invariant
            all == views(parties@),
            0 <= i <= parties.len(),
            risk == max_known_risk(all.take(i as int), rows(table@)),
            activity == max_known_activity(all.take(i as int), rows(table@)),
        decreases parties.len() - i,
    {
        proof {
            assert(all.take(i + 1).drop_last() =~= all.take(i as int));
            assert(all.take(i + 1).last() == parties@[i as int]@);
        }
        let here = look_up(table, &parties[i].address);
        if here.0 > risk {
            risk = here.0;
        }
        if here.1 > activity {
            activity = here.1;
        }
        i = i + 1;
    }
    proof {
        assert(all.take(i as int) =~= all);
    }
    (risk, activity)
}

/// Largest value among `parties`.
fn largest_value(parties: &Vec<Transfer>) -> (r: u64)
    ensures
        r == max_value(views(parties@)),
{
    let ghost all = views(parties@);
    let mut best: u64 = 0;
    let mut i: usize = 0;
    while i < parties.len()
        invariant
            all == views(parties@),
            0 <= i <= parties.len(),
            best == max_value(all.take(i as int)),
        decreases parties.len() - i,
    {
        proof {
            assert(all.take(i + 1).drop_last() =~= all.take(i as int));
            assert(all.take(i + 1).last() == parties@[i as int]@);
        }
        if parties[i].value > best {
            best = parties[i].value;
        }
        i = i + 1;
    }
    proof {
        assert(all.take(i as int) =~= all);
    }
    best
}

/// Computes the feature vector of `tx` against the history snapshot `history`.
///
/// The result depends on nothing but what the two arguments hold, and nothing
/// is changed: extracting twice from the same transaction and snapshot gives
/// the same vector. Where the snapshot has no risk table the extraction fails
/// with `InsufficientData`.
pub fn extract(tx: &TransactionRecord, history: &HistorySnapshot) -> (r: Result<FeatureVector>)
    ensures
        match spec_extract(tx@, history@) {
            Ok(features) => r matches Ok(fv) && fv@ == features,
            Err(e) => r == Err::<FeatureVector, Error>(e),
        },
        r matches Ok(fv) ==> fv.counterparty_risk_max <= SCALE,
{
    match &history.risk_table {
        None => Err(Error::InsufficientData),
        Some(table) => {
            let total: u64 = match tx.total_output() {
                Some(v) => v,
                None => u64::MAX,
            };
            let sources = exposure(&tx.inputs, table);
            let destinations = exposure(&tx.outputs, table).0;
            let fv = FeatureVector {
                fan_in_count: tx.inputs.len() as u64,
                fan_out_count: tx.outputs.len() as u64,
                total_value: total,
                max_output_value: largest_value(&tx.outputs),
                fee: tx.fee,
                counterparty_risk_max: if sources.0 > destinations {
                    sources.0
                } else {
                    destinations
                },
                source_activity_max: sources.1,
            };
            proof {
                let known = rows(table@);
                assert(history@ == Some(known));
                assert forall|f: Feature| #[trigger] fv@[f] == feature_value(tx@, known, f) by {}
                assert(fv@ =~= spec_features(tx@, known));
                lemma_max_known_risk_in_unit_range(tx@.inputs, known);
                lemma_max_known_risk_in_unit_range(tx@.outputs, known);
            }
            Ok(fv)
        },
    }
}

/// Extraction is a function of content: two transactions that hold the same
/// data, read against two snapshots that hold the same table, have the same
/// feature vector, or fail alike.
pub proof fn lemma_extract_is_deterministic(
    tx: TransactionRecord,
    history: HistorySnapshot,
    same_tx: TransactionRecord,
    same_history: HistorySnapshot,
)
    requires
        tx@ == same_tx@,
        history@ == same_history@,
    ensures
        spec_extract(tx@, history@) == spec_extract(same_tx@, same_history@),
{
}

/// The known risk of an address is the highest that the table records for it:
/// no row under the address has a higher one, and unless it is zero some row
/// under the address has exactly this one.
pub proof fn lemma_known_risk_is_highest(table: Seq<ProfileView>, address: Seq<char>)
    ensures
        forall|i: int|
            0 <= i < table.len() && (#[trigger] table[i]).address == address ==> capped_risk(
                table[i].risk,
            ) <= known_risk(table, address),
        known_risk(table, address) > 0 ==> exists|i: int|
            0 <= i < table.len() && (#[trigger] table[i]).address == address && capped_risk(
                table[i].risk,
            ) == known_risk(table, address),
    decreases table.len(),
{
    if table.len() > 0 {
        let shorter = table.drop_last();
        lemma_known_risk_is_highest(shorter, address);
        assert forall|i: int|
            0 <= i < table.len() && (#[trigger] table[i]).address == address implies capped_risk(
            table[i].risk,
        ) <= known_risk(table, address) by {
            if i < shorter.len() {
                assert(shorter[i] == table[i]);
            }
        }
        if known_risk(table, address) > 0 {
            if known_risk(table, address) == known_risk(shorter, address) {
                let i = choose|i: int|
                    0 <= i < shorter.len() && (#[trigger] shorter[i]).address == address
                        && capped_risk(shorter[i].risk) == known_risk(shorter, address);
                assert(table[i] == shorter[i]);
            } else {
                assert(table[table.len() - 1].address == address);
            }
        }
    }
}

/// No table gives a known risk above one.
pub proof fn lemma_known_risk_in_unit_range(table: Seq<ProfileView>, address: Seq<char>)
    ensures
        known_risk(table, address) <= SCALE,
    decreases table.len(),
{
    if table.len() > 0 {
        lemma_known_risk_in_unit_range(table.drop_last(), address);
    }
}

/// The highest known risk among any parties is at most one.
pub proof fn lemma_max_known_risk_in_unit_range(parties: Seq<TransferView>, table: Seq<ProfileView>)
    ensures
        max_known_risk(parties, table) <= SCALE,
    decreases parties.len(),
{
    if parties.len() > 0 {
        lemma_max_known_risk_in_unit_range(parties.drop_last(), table);
        lemma_known_risk_in_unit_range(table, parties.last().address);
    }
}

/// Advanced analytics engine for transaction analysis.
#[derive(Debug, Clone)]
pub struct Analytics;

impl Analytics {
    /// Creates a new analytics engine.
    pub fn new() -> (r: Self) {
        Analytics
    }

    /// Names the patterns the engine knows of: the single entry `"Pattern 1"`.
    pub fn analyze_patterns(&self) -> (r: Result<Vec<String>>)
        ensures
            r matches Ok(names) && names@.len() == 1 && names@[0]@ == "Pattern 1"@,
    {
        let mut names: Vec<String> = Vec::new();
        names.push(String::from_str("Pattern 1"));
        Ok(names)
    }
}

impl Default for Analytics {
    fn default() -> (r: Self) {
        Analytics::new()
    }
}

/// Report representation.
pub struct Report;

/// Dashboard interface.
pub struct Dashboard;

} // verus!
