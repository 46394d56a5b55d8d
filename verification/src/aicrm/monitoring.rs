//! The decision layer: thresholds, the decision they lead to, the states a
//! scored transaction passes through, and the bookkeeping around them.

use vstd::prelude::*;
use vstd::string::StringExecFns;
use crate::aicrm::SCALE;
use crate::aicrm::risk::{RiskScore, RiskScoreView};

verus! {

/// What is done with a scored transaction.
#[derive(Debug, Clone, Copy, PartialEq, Eq, Structural)]
pub enum Outcome {
    /// The score is below the low threshold: the transaction passes.
    Approve,
    /// The score is at or above the low threshold and below the high one: the
    /// transaction waits for a person to look at it.
    Hold,
    /// The score is at or above the high threshold: an alert goes out at once.
    Escalate,
}

/// The outcome for a score of `value` under the thresholds `low` and `high`.
///
/// A score that equals a threshold falls on the stricter side of it.
pub open spec fn spec_outcome(value: nat, low: nat, high: nat) -> Outcome {
    if value >= high {
        Outcome::Escalate
    } else if value >= low {
        Outcome::Hold
    } else {
        Outcome::Approve
    }
}

/// A score that equals the high threshold is escalated, not held.
pub proof fn lemma_high_threshold_escalates(value: nat, low: nat, high: nat)
    requires
        low <= high,
        value == high,
    ensures
        spec_outcome(value, low, high) == Outcome::Escalate,
{
}

/// A score that equals the low threshold is held, not approved, unless it
/// reaches the high threshold too.
pub proof fn lemma_low_threshold_holds(value: nat, low: nat, high: nat)
    requires
        low <= high,
        value == low,
    ensures
        spec_outcome(value, low, high) == if low == high {
            Outcome::Escalate
        } else {
            Outcome::Hold
        },
{
}

/// A higher score never leads to a milder outcome.
pub proof fn lemma_outcome_monotone(a: nat, b: nat, low: nat, high: nat)
    requires
        low <= high,
        a <= b,
    ensures
        spec_outcome(a, low, high).severity() <= spec_outcome(b, low, high).severity(),
{
}

impl Outcome {
    /// How strict the outcome is: approve 0, hold 1, escalate 2.
    pub open spec fn severity(self) -> nat {
        match self {
            Outcome::Approve => 0,
            Outcome::Hold => 1,
            Outcome::Escalate => 2,
        }
    }
}

/// The pair of thresholds in effect, in millionths, with `low <= high <= 1`.
#[derive(Debug, Clone, Copy, PartialEq, Eq, Structural)]
pub struct Thresholds {
    low: u64,
    high: u64,
}

impl Thresholds {
    #[verifier::type_invariant]
    closed spec fn ordered(&self) -> bool {
        self.low <= self.high <= SCALE
    }

    /// The low threshold.
    pub closed spec fn spec_low(&self) -> u64 {
        self.low
    }

    /// The high threshold.
    pub closed spec fn spec_high(&self) -> u64 {
        self.high
    }

    /// Puts a pair of thresholds together; `None` unless `low <= high <= 1`.
    pub fn new(low: u64, high: u64) -> (r: Option<Thresholds>)
        ensures
            r is Some <==> low <= high <= SCALE,
            r matches Some(t) ==> t.spec_low() == low && t.spec_high() == high,
    {
        if low <= high && high <= SCALE {
            Some(Thresholds { low, high })
        } else {
            None
        }
    }

    /// The thresholds used where none are configured: a quarter and three quarters.
    pub fn standard() -> (r: Thresholds)
        ensures
            r.spec_low() == 250_000,
            r.spec_high() == 750_000,
    {
        Thresholds { low: 250_000, high: 750_000 }
    }

    /// The low threshold.
    #[verifier::when_used_as_spec(spec_low)]
    pub fn low(&self) -> (r: u64)
        ensures
            r == self.spec_low(),
            r <= self.spec_high(),
    {
        proof {
            use_type_invariant(self);
        }
        self.low
    }

    /// The high threshold.
    #[verifier::when_used_as_spec(spec_high)]
    pub fn high(&self) -> (r: u64)
        ensures
            r == self.spec_high(),
            self.spec_low() <= r <= SCALE,
    {
        proof {
            use_type_invariant(self);
        }
        self.high
    }

    /// The outcome for a score of `value` under these thresholds.
    pub fn classify(&self, value: u64) -> (r: Outcome)
        ensures
            r == spec_outcome(value as nat, self.spec_low() as nat, self.spec_high() as nat),
            value < self.spec_low() ==> r == Outcome::Approve,
            self.spec_low() <= value < self.spec_high() ==> r == Outcome::Hold,
            value >= self.spec_high() ==> r == Outcome::Escalate,
    {
        proof {
            use_type_invariant(self);
        }
        if value >= self.high {
            Outcome::Escalate
        } else if value >= self.low {
            Outcome::Hold
        } else {
            Outcome::Approve
        }
    }
}

/// What contracts see of a decision.
pub struct DecisionView {
    pub outcome: Outcome,
    pub score: RiskScoreView,
    pub low: nat,
    pub high: nat,
}

/// A decision: the outcome, the risk score that led to it, and the thresholds
/// that were in effect.
///
/// The outcome is always the one that the thresholds give for the score.
#[derive(Debug)]
pub struct Decision {
    outcome: Outcome,
    score: RiskScore,
    thresholds: Thresholds,
}

impl View for Decision {
    type V = DecisionView;

    closed spec fn view(&self) -> DecisionView {
        DecisionView {
            outcome: self.outcome,
            score: self.score@,
            low: self.thresholds.spec_low() as nat,
            high: self.thresholds.spec_high() as nat,
        }
    }
}

/// Whether the outcome of `decision` is the one its thresholds give for its score.
pub open spec fn decision_consistent(decision: DecisionView) -> bool {
    decision.outcome == spec_outcome(decision.score.value, decision.low, decision.high)
}

impl Decision {
    #[verifier::type_invariant]
    closed spec fn consistent(&self) -> bool {
        decision_consistent(self@)
    }

    /// The outcome.
    pub fn outcome(&self) -> (r: Outcome)
        ensures
            r == self@.outcome,
            decision_consistent(self@),
    {
        proof {
            use_type_invariant(self);
        }
        self.outcome
    }

    /// The risk score that led to the decision.
    pub fn score(&self) -> (r: &RiskScore)
        ensures
            r@ == self@.score,
    {
        &self.score
    }

    /// The thresholds that were in effect.
    pub fn thresholds(&self) -> (r: Thresholds)
        ensures
            r.spec_low() == self@.low,
            r.spec_high() == self@.high,
    {
        self.thresholds
    }

    /// A second decision that holds the same outcome, score and thresholds.
    pub fn duplicate(&self) -> (r: Decision)
        ensures
            r@ == self@,
    {
        proof {
            use_type_invariant(self);
        }
        Decision { outcome: self.outcome, score: self.score.duplicate(), thresholds: self.thresholds }
    }
}

/// Decides what is done with a transaction that scored `score`.
///
/// Below the low threshold the transaction is approved, from the low
/// threshold up to but not including the high one it is held, and from the
/// high threshold on it is escalated.
pub fn decide(score: RiskScore, thresholds: &Thresholds) -> (r: Decision)
    ensures
        r@ == (DecisionView {
            outcome: spec_outcome(
                score@.value,
                thresholds.spec_low() as nat,
                thresholds.spec_high() as nat,
            ),
            score: score@,
            low: thresholds.spec_low() as nat,
            high: thresholds.spec_high() as nat,
        }),
{
    let outcome = thresholds.classify(score.value());
    Decision { outcome, score, thresholds: *thresholds }
}

/// The states of a transaction in the decision layer.
#[derive(Debug, Clone, Copy, PartialEq, Eq, Structural)]
pub enum TxState {
    /// Scored, not yet decided.
    Scored,
    /// Decided: approved.
    Approved,
    /// Decided: queued for a person to look at.
    Held,
    /// Decided: escalated.
    Escalated,
}

impl TxState {
    /// Whether the state is one of the three final ones.
    pub open spec fn spec_is_terminal(&self) -> bool {
        !(*self is Scored)
    }

    /// The state after the decision on a score of `value`: a scored
    /// transaction moves to the state of its outcome, a decided one stays.
    pub open spec fn spec_advance(self, value: nat, low: nat, high: nat) -> TxState {
        match self {
            TxState::Scored => match spec_outcome(value, low, high) {
                Outcome::Approve => TxState::Approved,
                Outcome::Hold => TxState::Held,
                Outcome::Escalate => TxState::Escalated,
            },
            decided => decided,
        }
    }

    /// Whether the state is one of the three final ones.
    #[verifier::when_used_as_spec(spec_is_terminal)]
    pub fn is_terminal(&self) -> (r: bool)
        ensures
            r == self.spec_is_terminal(),
    {
        match self {
            TxState::Scored => false,
            _ => true,
        }
    }

    /// Moves the state on by the decision on a score of `value`.
    pub fn advance(self, value: u64, thresholds: &Thresholds) -> (r: TxState)
        ensures
            r == self.spec_advance(
                value as nat,
                thresholds.spec_low() as nat,
                thresholds.spec_high() as nat,
            ),
            r.spec_is_terminal(),
    {
        match self {
            TxState::Scored => match thresholds.classify(value) {
                Outcome::Approve => TxState::Approved,
                Outcome::Hold => TxState::Held,
                Outcome::Escalate => TxState::Escalated,
            },
            decided => decided,
        }
    }
}

/// A decided state is final: whatever score and thresholds come later, it stays.
pub proof fn lemma_terminal_states_final(
    state: TxState,
    value: nat,
    low: nat,
    high: nat,
    later_value: nat,
    later_low: nat,
    later_high: nat,
)
    ensures
        state.spec_advance(value, low, high).spec_is_terminal(),
        state.spec_advance(value, low, high).spec_advance(later_value, later_low, later_high)
            == state.spec_advance(value, low, high),
{
}

/// The texts of `ids`, in the same order.
pub open spec fn texts(ids: Seq<String>) -> Seq<Seq<char>> {
    ids.map_values(|s: String| s@)
}

/// Keeps track of the transactions that are being scored, so that no
/// transaction is scored twice at the same time.
#[derive(Debug)]
pub struct TransactionMonitor {
    in_flight: Vec<String>,
}

impl View for TransactionMonitor {
    type V = Set<Seq<char>>;

    /// The identifiers of the transactions that are being scored.
    closed spec fn view(&self) -> Set<Seq<char>> {
        Set::new(|id: Seq<char>| self.in_flight@.map_values(|s: String| s@).contains(id))
    }
}

impl TransactionMonitor {
    /// Creates a monitor with no transaction in flight.
    pub fn new() -> (r: Self)
        ensures
            r@ == Set::<Seq<char>>::empty(),
    {
        let r = TransactionMonitor { in_flight: Vec::new() };
        assert(r@ =~= Set::<Seq<char>>::empty());
        r
    }

    /// Whether the transaction `tx_id` is being scored.
    pub fn is_in_flight(&self, tx_id: &str) -> (r: bool)
        ensures
            r == self@.contains(tx_id@),
    {
        let wanted = String::from_str(tx_id);
        let ghost names = self.in_flight@.map_values(|s: String| s@);
        let mut i: usize = 0;
        while i < self.in_flight.len()
            invariant
                names == self.in_flight@.map_values(|s: String| s@),
                wanted@ == tx_id@,
                0 <= i <= self.in_flight.len(),
                forall|k: int| 0 <= k < i ==> names[k] != tx_id@,
            decreases self.in_flight.len() - i,
        {
            if self.in_flight[i] == wanted {
                assert(names[i as int] == tx_id@);
                return true;
            }
            i = i + 1;
        }
        false
    }

    /// Marks the transaction `tx_id` as being scored.
    ///
    /// Returns `true` where it was not in flight yet: the caller may then score
    /// it. Returns `false` where a scoring run for it is already under way.
    pub fn begin(&mut self, tx_id: &str) -> (r: bool)
        ensures
            r == !old(self)@.contains(tx_id@),
            final(self)@ == old(self)@.insert(tx_id@),
    {
        if self.is_in_flight(tx_id) {
            assert(self@ =~= self@.insert(tx_id@));
            return false;
        }
        let ghost before = self.in_flight@.map_values(|s: String| s@);
        self.in_flight.push(String::from_str(tx_id));
        proof {
            let after = self.in_flight@.map_values(|s: String| s@);
            assert(after =~= before.push(tx_id@));
            assert forall|id: Seq<char>| after.contains(id) <==> (before.contains(id) || id
                == tx_id@) by {
                if before.contains(id) {
                    let k = choose|k: int| 0 <= k < before.len() && before[k] == id;
                    assert(after[k] == id);
                }
                if id == tx_id@ {
                    assert(after[before.len() as int] == id);
                }
            }
            assert(self@ =~= old(self)@.insert(tx_id@));
        }
        true
    }

    /// Marks the scoring of transaction `tx_id` as ended.
    ///
    /// Returns whether it was in flight.
    pub fn finish(&mut self, tx_id: &str) -> (r: bool)
        ensures
            r == old(self)@.contains(tx_id@),
            final(self)@ == old(self)@.remove(tx_id@),
    {
        let wanted = String::from_str(tx_id);
        let ghost before = self.in_flight@.map_values(|s: String| s@);
        let mut rest: Vec<String> = self.in_flight.split_off(0);
        let mut found = false;
        proof {
            assert(rest@.map_values(|s: String| s@) =~= before);
            assert(self.in_flight@.map_values(|s: String| s@) =~= Seq::<Seq<char>>::empty());
        }
        while rest.len() > 0
            invariant
                wanted@ == tx_id@,
                !self.in_flight@.map_values(|s: String| s@).contains(tx_id@),
                forall|id: Seq<char>|
                    id != tx_id@ ==> (#[trigger] before.contains(id) <==> (texts(rest@).contains(id)
                        || texts(self.in_flight@).contains(id))),
                before.contains(tx_id@) <==> (found || rest@.map_values(|s: String| s@).contains(
                    tx_id@,
                )),
            decreases rest.len(),
        {
            let ghost todo = rest@.map_values(|s: String| s@);
            let ghost kept = self.in_flight@.map_values(|s: String| s@);
            let last = rest.pop().unwrap();
            let ghost todo_after = rest@.map_values(|s: String| s@);
            proof {
                assert(todo_after =~= todo.drop_last());
                assert(todo.last() == last@);
                assert forall|id: Seq<char>| todo.contains(id) <==> (todo_after.contains(id) || id
                    == last@) by {
                    if todo.contains(id) {
                        let k = choose|k: int| 0 <= k < todo.len() && todo[k] == id;
                        if k < todo_after.len() {
                            assert(todo_after[k] == id);
                        }
                    }
                    if todo_after.contains(id) {
                        let k = choose|k: int| 0 <= k < todo_after.len() && todo_after[k] == id;
                        assert(todo[k] == id);
                    }
                    if id == last@ {
                        assert(todo[todo.len() - 1] == id);
                    }
                }
            }
            if last == wanted {
                found = true;
            } else {
                self.in_flight.push(last);
                proof {
                    let kept_after = self.in_flight@.map_values(|s: String| s@);
                    assert(kept_after =~= kept.push(last@));
                    assert forall|id: Seq<char>| kept_after.contains(id) <==> (kept.contains(id)
                        || id == last@) by {
                        if kept.contains(id) {
                            let k = choose|k: int| 0 <= k < kept.len() && kept[k] == id;
                            assert(kept_after[k] == id);
                        }
                        if id == last@ {
                            assert(kept_after[kept.len() as int] == id);
                        }
                    }
                }
            }
        }
        proof {
            let kept = self.in_flight@.map_values(|s: String| s@);
            let todo = rest@.map_values(|s: String| s@);
            assert(todo.len() == 0);
            assert forall|id: Seq<char>| kept.contains(id) <==> (before.contains(id) && id
                != tx_id@) by {
                assert(!todo.contains(id));
            }
            assert(!todo.contains(tx_id@));
            assert(self@ =~= old(self)@.remove(tx_id@));
        }
        found
    }
}

/// What contracts see of an alert.
pub struct AlertView {
    pub tx_id: Seq<char>,
    pub sequence: u64,
    pub score: u64,
}

/// Notice of an escalated decision: the transaction, the sequence number of
/// its audit entry, and the score in millionths.
#[derive(Debug, Clone)]
pub struct Alert {
    pub tx_id: String,
    pub sequence: u64,
    pub score: u64,
}

impl View for Alert {
    type V = AlertView;

    open spec fn view(&self) -> AlertView {
        AlertView { tx_id: self.tx_id@, sequence: self.sequence, score: self.score }
    }
}

/// Collects the alerts that escalated decisions call for, until they are sent.
#[derive(Debug)]
pub struct AlertManager {
    pending: Vec<Alert>,
}

impl View for AlertManager {
    type V = Seq<AlertView>;

    /// The alerts that wait to be sent, oldest first.
    closed spec fn view(&self) -> Seq<AlertView> {
        self.pending@.map_values(|a: Alert| a@)
    }
}

impl AlertManager {
    /// Creates a manager with no alert pending.
    pub fn new() -> (r: Self)
        ensures
            r@ == Seq::<AlertView>::empty(),
    {
        let r = AlertManager { pending: Vec::new() };
        assert(r@ =~= Seq::<AlertView>::empty());
        r
    }

    /// Takes note of a decision on transaction `tx_id`, recorded under `sequence`.
    ///
    /// An escalated decision adds one alert and returns `true`; any other
    /// decision changes nothing and returns `false`.
    pub fn notify(&mut self, tx_id: &str, sequence: u64, decision: &Decision) -> (r: bool)
        ensures
            r == (decision@.outcome == Outcome::Escalate),
            r ==> final(self)@ == old(self)@.push(
                AlertView { tx_id: tx_id@, sequence, score: decision@.score.value as u64 },
            ),
            !r ==> final(self)@ == old(self)@,
    {
        match decision.outcome() {
            Outcome::Escalate => {
                let ghost before = self@;
                let alert = Alert {
                    tx_id: String::from_str(tx_id),
                    sequence,
                    score: decision.score().value(),
                };
                let ghost added = alert@;
                self.pending.push(alert);
                proof {
                    assert(self@ =~= before.push(added));
                }
                true
            },
            _ => false,
        }
    }

    /// Number of alerts that wait to be sent.
    pub fn pending_count(&self) -> (r: usize)
        ensures
            r == self@.len(),
    {
        self.pending.len()
    }

    /// Hands out all pending alerts, oldest first, and leaves none behind.
    pub fn take_pending(&mut self) -> (r: Vec<Alert>)
        ensures
            r@.map_values(|a: Alert| a@) == old(self)@,
            final(self)@ == Seq::<AlertView>::empty(),
    {
        let ghost before = self@;
        let out = self.pending.split_off(0);
        proof {
            assert(out@.map_values(|a: Alert| a@) =~= before);
            assert(self@ =~= Seq::<AlertView>::empty());
        }
        out
    }
}

} // verus!
