//! The audit ledger: the append-only record of every scoring decision.

use vstd::prelude::*;
use vstd::slice::slice_subrange;
use vstd::string::StringExecFns;
use crate::aicrm::analytics::{Feature, FeatureVector};
use crate::aicrm::compliance::{RuleResult, TriggeredRule};
use crate::aicrm::error::{Error, Result};
use crate::aicrm::monitoring::{Decision, DecisionView};
use crate::aicrm::risk::{RiskScore, RiskScoreView};

verus! {

/// What contracts see of an audit entry.
pub struct AuditEntryView {
    pub sequence: u64,
    pub tx_id: Seq<char>,
    pub features: Map<Feature, nat>,
    pub decision: DecisionView,
    pub recorded_at: u64,
}

impl AuditEntryView {
    /// The risk score that the entry records.
    pub open spec fn score(self) -> RiskScoreView {
        self.decision.score
    }

    /// The rule result that the entry records.
    pub open spec fn rule_result(self) -> Seq<TriggeredRule> {
        self.decision.score.contributing
    }
}

/// The record of one scoring decision: the transaction, the features and rule
/// result that were scored, the score, the decision, and the wall-clock time.
///
/// An entry cannot be changed once it exists.
#[derive(Debug)]
pub struct AuditEntry {
    sequence: u64,
    tx_id: String,
    features: FeatureVector,
    decision: Decision,
    recorded_at: u64,
}

impl View for AuditEntry {
    type V = AuditEntryView;

    closed spec fn view(&self) -> AuditEntryView {
        AuditEntryView {
            sequence: self.sequence,
            tx_id: self.tx_id@,
            features: self.features@,
            decision: self.decision@,
            recorded_at: self.recorded_at,
        }
    }
}

impl AuditEntry {
    /// Puts an entry together.
    pub fn new(
        sequence: u64,
        tx_id: &str,
        features: FeatureVector,
        decision: Decision,
        recorded_at: u64,
    ) -> (r: AuditEntry)
        ensures
            r@ == (AuditEntryView {
                sequence,
                tx_id: tx_id@,
                features: features@,
                decision: decision@,
                recorded_at,
            }),
    {
        AuditEntry { sequence, tx_id: String::from_str(tx_id), features, decision, recorded_at }
    }

    /// The sequence number of the entry.
    pub fn sequence(&self) -> (r: u64)
        ensures
            r == self@.sequence,
    {
        self.sequence
    }

    /// The identifier of the transaction that was scored.
    pub fn tx_id(&self) -> (r: &str)
        ensures
            r@ == self@.tx_id,
    {
        self.tx_id.as_str()
    }

    /// The feature vector that was scored.
    pub fn features(&self) -> (r: FeatureVector)
        ensures
            r@ == self@.features,
    {
        self.features
    }

    /// The rule result that was scored.
    pub fn rule_result(&self) -> (r: &RuleResult)
        ensures
            r@ == self@.rule_result(),
    {
        self.decision.score().contributing()
    }

    /// The risk score.
    pub fn score(&self) -> (r: &RiskScore)
        ensures
            r@ == self@.score(),
    {
        self.decision.score()
    }

    /// The decision.
    pub fn decision(&self) -> (r: &Decision)
        ensures
            r@ == self@.decision,
    {
        &self.decision
    }

    /// The wall-clock time at which the entry was made.
    pub fn recorded_at(&self) -> (r: u64)
        ensures
            r == self@.recorded_at,
    {
        self.recorded_at
    }
}

/// Whether every entry carries its own position as sequence number: the
/// numbers start at zero, rise by one, and leave no gap.
pub open spec fn gap_free(entries: Seq<AuditEntryView>) -> bool {
    forall|i: int| 0 <= i < entries.len() ==> (#[trigger] entries[i]).sequence == i
}

/// The entries at the positions from `from` up to but not including `to`, in
/// order, as far as `entries` reaches. Where `entries` has no gap, these are
/// the entries with a sequence number of at least `from` and below `to`.
pub open spec fn range_of(entries: Seq<AuditEntryView>, from: u64, to: u64) -> Seq<AuditEntryView> {
    let end = if to < entries.len() {
        to as int
    } else {
        entries.len() as int
    };
    if from >= end {
        Seq::<AuditEntryView>::empty()
    } else {
        entries.subrange(from as int, end)
    }
}

/// The positions of the entries for transaction `tx_id`, in rising order.
pub open spec fn positions_of(entries: Seq<AuditEntryView>, tx_id: Seq<char>) -> Seq<u64>
    decreases entries.len(),
{
    if entries.len() == 0 {
        Seq::<u64>::empty()
    } else {
        let rest = positions_of(entries.drop_last(), tx_id);
        if entries.last().tx_id == tx_id {
            rest.push((entries.len() - 1) as u64)
        } else {
            rest
        }
    }
}

/// A lookup by transaction finds every entry for the transaction and no other:
/// a position is among those found exactly where the entry at that position is
/// for the transaction, and the positions found rise strictly.
pub proof fn lemma_positions_are_exact(entries: Seq<AuditEntryView>, tx_id: Seq<char>)
    requires
        entries.len() <= u64::MAX,
    ensures
        forall|i: int|
            0 <= i < entries.len() ==> ((#[trigger] entries[i]).tx_id == tx_id <==> positions_of(
                entries,
                tx_id,
            ).contains(i as u64)),
        forall|k: int|
            0 <= k < positions_of(entries, tx_id).len() ==> (#[trigger] positions_of(
                entries,
                tx_id,
            )[k]) < entries.len(),
        forall|j: int, k: int|
            0 <= j < k < positions_of(entries, tx_id).len() ==> (#[trigger] positions_of(
                entries,
                tx_id,
            )[j]) < (#[trigger] positions_of(entries, tx_id)[k]),
    decreases entries.len(),
{
    if entries.len() > 0 {
        let shorter = entries.drop_last();
        let rest = positions_of(shorter, tx_id);
        let all = positions_of(entries, tx_id);
        let last = entries.len() - 1;
        lemma_positions_are_exact(shorter, tx_id);
        assert forall|k: int| 0 <= k < all.len() implies (#[trigger] all[k]) < entries.len() by {
            if k < rest.len() {
                assert(all[k] == rest[k]);
            }
        }
        assert forall|j: int, k: int| 0 <= j < k < all.len() implies (#[trigger] all[j]) < (
        #[trigger] all[k]) by {
            assert(all[j] == rest[j]);
            if k < rest.len() {
                assert(all[k] == rest[k]);
            }
        }
        assert forall|i: int| 0 <= i < entries.len() implies ((#[trigger] entries[i]).tx_id
            == tx_id <==> all.contains(i as u64)) by {
            if i < last {
                assert(shorter[i] == entries[i]);
                if rest.contains(i as u64) {
                    let k = choose|k: int| 0 <= k < rest.len() && rest[k] == i as u64;
                    assert(all[k] == i as u64);
                }
                if all.contains(i as u64) {
                    let k = choose|k: int| 0 <= k < all.len() && all[k] == i as u64;
                    if k < rest.len() {
                        assert(rest[k] == i as u64);
                    }
                }
            } else {
                if entries[i].tx_id == tx_id {
                    assert(all[rest.len() as int] == i as u64);
                }
                if all.contains(i as u64) {
                    let k = choose|k: int| 0 <= k < all.len() && all[k] == i as u64;
                    if k < rest.len() {
                        assert(rest[k] < shorter.len());
                    }
                }
            }
        }
    }
}

/// In a ledger without gaps, a range read holds exactly the entries whose
/// sequence number is at least `from` and below `to`, in rising order.
pub proof fn lemma_range_is_exact(entries: Seq<AuditEntryView>, from: u64, to: u64)
    requires
        gap_free(entries),
    ensures
        forall|k: int|
            0 <= k < range_of(entries, from, to).len() ==> (#[trigger] range_of(
                entries,
                from,
                to,
            )[k]).sequence == from + k,
        forall|k: int|
            0 <= k < range_of(entries, from, to).len() ==> from <= (#[trigger] range_of(
                entries,
                from,
                to,
            )[k]).sequence < to,
        forall|i: int|
            0 <= i < entries.len() && from <= (#[trigger] entries[i]).sequence < to ==> from <= i
                && i - from < range_of(entries, from, to).len() && range_of(entries, from, to)[i
                - from] == entries[i],
{
    let range = range_of(entries, from, to);
    assert forall|k: int| 0 <= k < range.len() implies (#[trigger] range[k]).sequence == from
        + k by {
        assert(range[k] == entries[from + k]);
    }
    assert forall|i: int| 0 <= i < entries.len() && from <= (#[trigger] entries[i]).sequence
        < to implies from <= i && i - from < range.len() && range[i - from] == entries[i] by {
        assert(entries[i].sequence == i);
    }
}

/// The append-only ledger of audit entries.
///
/// Entries are only ever added at the end; none is changed, moved or removed.
/// A ledger never has a gap in its sequence numbers: every entry carries its
/// own position, counted from zero.
#[derive(Debug)]
pub struct AuditLedger {
    entries: Vec<AuditEntry>,
}

impl View for AuditLedger {
    type V = Seq<AuditEntryView>;

    closed spec fn view(&self) -> Seq<AuditEntryView> {
        self.entries@.map_values(|e: AuditEntry| e@)
    }
}

impl AuditLedger {
    #[verifier::type_invariant]
    closed spec fn numbered(&self) -> bool {
        gap_free(self@)
    }

    /// Creates an empty ledger.
    pub fn new() -> (r: Self)
        ensures
            r@ == Seq::<AuditEntryView>::empty(),
            gap_free(r@),
    {
        let r = AuditLedger { entries: Vec::new() };
        assert(r@ =~= Seq::<AuditEntryView>::empty());
        r
    }

    /// Number of entries.
    pub fn len(&self) -> (r: usize)
        ensures
            r == self@.len(),
            gap_free(self@),
    {
        proof {
            use_type_invariant(self);
        }
        self.entries.len()
    }

    /// The sequence number that the next entry must carry.
    pub fn next_sequence(&self) -> (r: u64)
        ensures
            r == self@.len(),
            gap_free(self@),
    {
        proof {
            use_type_invariant(self);
        }
        self.entries.len() as u64
    }

    /// Adds `entry` at the end of the ledger and returns its sequence number.
    ///
    /// Fails with `SequenceConflict`, and leaves the ledger as it was, where
    /// the entry does not carry the next sequence number.
    pub fn append(&mut self, entry: AuditEntry) -> (r: Result<u64>)
        ensures
            entry@.sequence == old(self)@.len() ==> r == Ok::<u64, Error>(entry@.sequence)
                && final(self)@ == old(self)@.push(entry@),
            entry@.sequence != old(self)@.len() ==> r == Err::<u64, Error>(
                Error::SequenceConflict {
                    expected: old(self)@.len() as u64,
                    found: entry@.sequence,
                },
            ) && final(self)@ == old(self)@,
            gap_free(old(self)@),
            gap_free(final(self)@),
    {
        proof {
            use_type_invariant(&*self);
        }
        let expected: u64 = self.entries.len() as u64;
        if entry.sequence != expected {
            return Err(Error::SequenceConflict { expected, found: entry.sequence });
        }
        let ghost before = self@;
        let ghost added = entry@;
        let sequence = entry.sequence;
        let mut grown = AuditLedger { entries: Vec::new() };
        proof {
            assert(grown@ =~= Seq::<AuditEntryView>::empty());
        }
        core::mem::swap(self, &mut grown);
        let AuditLedger { entries } = grown;
        let mut entries = entries;
        entries.push(entry);
        proof {
            let after = entries@.map_values(|e: AuditEntry| e@);
            assert(after =~= before.push(added));
            assert forall|i: int| 0 <= i < after.len() implies (#[trigger] after[i]).sequence
                == i by {
                if i < before.len() {
                    assert(before[i].sequence == i);
                }
            }
        }
        *self = AuditLedger { entries };
        Ok(sequence)
    }

    /// The entry with sequence number `sequence`, if the ledger holds one.
    pub fn get(&self, sequence: u64) -> (r: Option<&AuditEntry>)
        ensures
            r is Some <==> sequence < self@.len(),
            r matches Some(e) ==> e@ == self@[sequence as int] && e@.sequence == sequence,
    {
        proof {
            use_type_invariant(self);
        }
        if sequence < self.entries.len() as u64 {
            assert(self@[sequence as int].sequence == sequence);
            Some(&self.entries[sequence as usize])
        } else {
            None
        }
    }

    /// The entries with a sequence number of at least `from` and below `to`,
    /// in rising order, as far as the ledger holds them.
    ///
    /// Reading does not change the ledger, so a range can be read again at any
    /// time; entries added since then show up where the range reaches them.
    pub fn read_range(&self, from: u64, to: u64) -> (r: &[AuditEntry])
        ensures
            r@.map_values(|e: AuditEntry| e@) == range_of(self@, from, to),
            forall|k: int| 0 <= k < r@.len() ==> (#[trigger] r@[k])@.sequence == from + k,
            gap_free(self@),
    {
        proof {
            use_type_invariant(self);
        }
        let len = self.entries.len();
        let end: usize = if to < len as u64 {
            to as usize
        } else {
            len
        };
        let start: usize = if from >= end as u64 {
            end
        } else {
            from as usize
        };
        let out = slice_subrange(self.entries.as_slice(), start, end);
        proof {
            assert(out@.map_values(|e: AuditEntry| e@) =~= range_of(self@, from, to));
            assert forall|k: int| 0 <= k < out@.len() implies (#[trigger] out@[k])@.sequence
                == from + k by {
                assert(out@[k] == self.entries@[start + k]);
                assert(self@[start + k].sequence == start + k);
            }
        }
        out
    }

    /// The sequence numbers of the entries for transaction `tx_id`, in rising order.
    pub fn find_by_transaction(&self, tx_id: &str) -> (r: Vec<u64>)
        ensures
            r@ == positions_of(self@, tx_id@),
            gap_free(self@),
    {
        proof {
            use_type_invariant(self);
        }
        let wanted = String::from_str(tx_id);
        let mut found: Vec<u64> = Vec::new();
        let mut i: usize = 0;
        while i < self.entries.len()
            invariant
                wanted@ == tx_id@,
                0 <= i <= self.entries.len(),
                found@ == positions_of(self@.take(i as int), tx_id@),
            decreases self.entries.len() - i,
        {
            proof {
                assert(self@.take(i + 1).drop_last() =~= self@.take(i as int));
                assert(self@.take(i + 1).last() == self.entries@[i as int]@);
            }
            if self.entries[i].tx_id == wanted {
                found.push(i as u64);
            }
            i = i + 1;
        }
        proof {
            assert(self@.take(i as int) =~= self@);
        }
        found
    }
}

/// A reader that walks a range of the ledger one entry at a time.
///
/// The reader holds positions only, so it can be kept while the ledger grows,
/// and set back to the start of its range at any time.
#[derive(Debug, Clone, Copy, PartialEq, Eq, Structural)]
pub struct AuditCursor {
    pub start: u64,
    pub next: u64,
    pub end: u64,
}

impl AuditCursor {
    /// A reader for the positions from `from` up to but not including `to`.
    pub fn new(from: u64, to: u64) -> (r: AuditCursor)
        ensures
            r == (AuditCursor { start: from, next: from, end: to }),
    {
        AuditCursor { start: from, next: from, end: to }
    }

    /// Sets the reader back to the start of its range.
    pub fn restart(&mut self)
        ensures
            *final(self) == (AuditCursor { next: old(self).start, ..*old(self) }),
    {
        self.next = self.start;
    }

    /// Hands out the entry at the reader's position and moves on by one.
    ///
    /// Returns `None`, and stays where it is, once the position has reached
    /// the end of the range or of the ledger.
    pub fn read<'a>(&mut self, ledger: &'a AuditLedger) -> (r: Option<&'a AuditEntry>)
        ensures
            r is Some <==> old(self).next < old(self).end && old(self).next < ledger@.len(),
            r matches Some(e) ==> e@ == ledger@[old(self).next as int] && e@.sequence == old(
                self,
            ).next && *final(self) == (AuditCursor {
                next: (old(self).next + 1) as u64,
                ..*old(self)
            }),
            r is None ==> *final(self) == *old(self),
    {
        if self.next < self.end {
            let found = ledger.get(self.next);
            if found.is_some() {
                self.next = self.next + 1;
            }
            found
        } else {
            None
        }
    }
}

/// Report generator.
pub struct ReportGenerator;

impl ReportGenerator {
    /// Creates a new report generator.
    pub fn new() -> (r: Self) {
        ReportGenerator
    }
}

} // verus!
