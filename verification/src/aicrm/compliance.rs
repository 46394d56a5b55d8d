//! The rule engine: deterministic compliance rules evaluated against a
//! transaction and its features.

use vstd::prelude::*;
use crate::aicrm::SCALE;
use crate::aicrm::analytics::{Feature, FeatureVector};
use crate::aicrm::error::{Error, Result};
use crate::aicrm::transaction::{
    count_in_band, has_blank_address, views, TransactionRecord, TransactionView, Transfer,
    TransferView,
};

verus! {

/// What contracts see of a rule's kind.
pub enum RuleKindView {
    SanctionsList { addresses: Seq<Seq<char>> },
    Structuring { floor: u64, ceiling: u64, min_count: u64 },
    Velocity { max_recent: u64 },
    LargeTransfer { limit: u64 },
    RiskyCounterparty { min_risk: u64 },
}

/// The kinds of rule the engine knows, each with its parameters.
///
/// A new rule is a new value of this type, not a new type.
#[derive(Debug, Clone)]
pub enum RuleKind {
    /// A source or destination of the transaction is on the list.
    SanctionsList { addresses: Vec<String> },
    /// At least `min_count` outputs carry a value of at least `floor` and below `ceiling`.
    Structuring { floor: u64, ceiling: u64, min_count: u64 },
    /// Some source took part in more than `max_recent` recent transactions.
    Velocity { max_recent: u64 },
    /// The total value is `limit` or more.
    LargeTransfer { limit: u64 },
    /// The highest counterparty risk is `min_risk` or more.
    RiskyCounterparty { min_risk: u64 },
}

impl View for RuleKind {
    type V = RuleKindView;

    open spec fn view(&self) -> RuleKindView {
        match self {
            RuleKind::SanctionsList { addresses } => RuleKindView::SanctionsList {
                addresses: addresses@.map_values(|a: String| a@),
            },
            RuleKind::Structuring { floor, ceiling, min_count } => RuleKindView::Structuring {
                floor: *floor,
                ceiling: *ceiling,
                min_count: *min_count,
            },
            RuleKind::Velocity { max_recent } => RuleKindView::Velocity { max_recent: *max_recent },
            RuleKind::LargeTransfer { limit } => RuleKindView::LargeTransfer { limit: *limit },
            RuleKind::RiskyCounterparty { min_risk } => RuleKindView::RiskyCounterparty {
                min_risk: *min_risk,
            },
        }
    }
}

/// What contracts see of a rule.
pub struct RuleView {
    pub id: u64,
    pub weight: u64,
    pub kind: RuleKindView,
}

/// A rule: its stable identifier, its severity weight in millionths, and what it tests.
#[derive(Debug, Clone)]
pub struct Rule {
    pub id: u64,
    pub weight: u64,
    pub kind: RuleKind,
}

impl View for Rule {
    type V = RuleView;

    open spec fn view(&self) -> RuleView {
        RuleView { id: self.id, weight: self.weight, kind: self.kind@ }
    }
}

/// A rule that triggered, with the weight it had when it did.
#[derive(Debug, Clone, Copy, PartialEq, Eq, Structural)]
pub struct TriggeredRule {
    pub id: u64,
    pub weight: u64,
}

/// The rules that triggered for one transaction, in the order of the rule table.
#[derive(Debug, Clone)]
pub struct RuleResult {
    pub triggered: Vec<TriggeredRule>,
}

impl View for RuleResult {
    type V = Seq<TriggeredRule>;

    open spec fn view(&self) -> Seq<TriggeredRule> {
        self.triggered@
    }
}

impl RuleResult {
    /// A result in which nothing triggered.
    pub fn new() -> (r: RuleResult)
        ensures
            r@ == Seq::<TriggeredRule>::empty(),
    {
        RuleResult { triggered: Vec::new() }
    }

    /// A second result that holds the same rules in the same order.
    pub fn duplicate(&self) -> (r: RuleResult)
        ensures
            r@ == self@,
    {
        let mut triggered: Vec<TriggeredRule> = Vec::new();
        let mut i: usize = 0;
        while i < self.triggered.len()
            invariant
                0 <= i <= self.triggered.len(),
                triggered@ == self.triggered@.take(i as int),
            decreases self.triggered.len() - i,
        {
            triggered.push(self.triggered[i]);
            proof {
                assert(triggered@ =~= self.triggered@.take(i + 1));
            }
            i = i + 1;
        }
        proof {
            assert(self.triggered@.take(i as int) =~= self.triggered@);
        }
        RuleResult { triggered }
    }

    /// Whether the rule with identifier `id` is among the triggered ones.
    pub fn contains(&self, id: u64) -> (r: bool)
        ensures
            r == exists|i: int| 0 <= i < self@.len() && (#[trigger] self@[i]).id == id,
    {
        let mut i: usize = 0;
        while i < self.triggered.len()
            invariant
                0 <= i <= self.triggered.len(),
                forall|k: int| 0 <= k < i ==> (#[trigger] self@[k]).id != id,
            decreases self.triggered.len() - i,
        {
            if self.triggered[i].id == id {
                assert(self@[i as int].id == id);
                return true;
            }
            i = i + 1;
        }
        false
    }
}

/// Whether one of `parties` has an address that is on `list`.
pub open spec fn any_listed(parties: Seq<TransferView>, list: Seq<Seq<char>>) -> bool {
    exists|i: int| 0 <= i < parties.len() && list.contains(#[trigger] parties[i].address)
}

/// Whether the transaction holds what a rule of kind `kind` reads.
///
/// A sanctions list reads every address, so none may be blank; rules on
/// outputs need an output, the velocity rule needs a source. A rule that reads
/// features alone always finds its input.
pub open spec fn input_present(kind: RuleKindView, tx: TransactionView) -> bool {
    match kind {
        RuleKindView::SanctionsList { .. } => !has_blank_address(tx.inputs) && !has_blank_address(
            tx.outputs,
        ),
        RuleKindView::Structuring { .. } => tx.outputs.len() > 0,
        RuleKindView::Velocity { .. } => tx.inputs.len() > 0,
        RuleKindView::LargeTransfer { .. } => tx.outputs.len() > 0,
        RuleKindView::RiskyCounterparty { .. } => true,
    }
}

/// Whether a rule of kind `kind` triggers on the transaction and its features.
pub open spec fn rule_triggers(
    kind: RuleKindView,
    tx: TransactionView,
    features: Map<Feature, nat>,
) -> bool {
    match kind {
        RuleKindView::SanctionsList { addresses } => any_listed(tx.inputs, addresses) || any_listed(
            tx.outputs,
            addresses,
        ),
        RuleKindView::Structuring { floor, ceiling, min_count } => count_in_band(
            tx.outputs,
            floor as nat,
            ceiling as nat,
        ) >= min_count,
        RuleKindView::Velocity { max_recent } => features[Feature::SourceActivityMax] > max_recent,
        RuleKindView::LargeTransfer { limit } => features[Feature::TotalValue] >= limit,
        RuleKindView::RiskyCounterparty { min_risk } => features[Feature::CounterpartyRiskMax]
            >= min_risk,
    }
}

/// Identifier of the first rule whose input the transaction lacks, if there is one.
pub open spec fn first_unreadable(rules: Seq<RuleView>, tx: TransactionView) -> Option<u64>
    decreases rules.len(),
{
    if rules.len() == 0 {
        None
    } else {
        match first_unreadable(rules.drop_last(), tx) {
            Some(id) => Some(id),
            None => if input_present(rules.last().kind, tx) {
                None
            } else {
                Some(rules.last().id)
            },
        }
    }
}

/// The rules among `rules` that trigger, in table order, each with its weight.
pub open spec fn triggered_rules(
    rules: Seq<RuleView>,
    tx: TransactionView,
    features: Map<Feature, nat>,
) -> Seq<TriggeredRule>
    decreases rules.len(),
{
    if rules.len() == 0 {
        Seq::<TriggeredRule>::empty()
    } else {
        let rest = triggered_rules(rules.drop_last(), tx, features);
        if rule_triggers(rules.last().kind, tx, features) {
            rest.push(TriggeredRule { id: rules.last().id, weight: rules.last().weight })
        } else {
            rest
        }
    }
}

/// What evaluating `rules` returns: an error naming the first rule that cannot
/// read its input, otherwise every rule that triggers.
pub open spec fn spec_evaluate(
    rules: Seq<RuleView>,
    tx: TransactionView,
    features: Map<Feature, nat>,
) -> core::result::Result<Seq<TriggeredRule>, Error> {
    match first_unreadable(rules, tx) {
        Some(id) => Err(Error::RuleEvaluationError { rule_id: id }),
        None => Ok(triggered_rules(rules, tx, features)),
    }
}

/// A rule table is valid when every weight is at most one and no identifier occurs twice.
pub open spec fn rules_valid(rules: Seq<RuleView>) -> bool {
    &&& forall|i: int| 0 <= i < rules.len() ==> (#[trigger] rules[i]).weight <= SCALE
    &&& forall|i: int, j: int|
        0 <= i < j < rules.len() ==> (#[trigger] rules[i]).id != (#[trigger] rules[j]).id
}

/// Whether `rules` holds a rule with identifier `id`.
pub open spec fn has_rule(rules: Seq<RuleView>, id: u64) -> bool {
    exists|i: int| 0 <= i < rules.len() && (#[trigger] rules[i]).id == id
}

/// `rules` with the weight of the rule at `index` replaced by `weight`.
pub open spec fn with_weight(rules: Seq<RuleView>, index: int, weight: u64) -> Seq<RuleView> {
    rules.update(index, RuleView { id: rules[index].id, weight, kind: rules[index].kind })
}

/// Whether `address` is on `list`.
fn is_listed(list: &Vec<String>, address: &String) -> (r: bool)
    ensures
        r == list@.map_values(|a: String| a@).contains(address@),
{
    let ghost names = list@.map_values(|a: String| a@);
    let mut i: usize = 0;
    while i < list.len()
        invariant
            names == list@.map_values(|a: String| a@),
            0 <= i <= list.len(),
            forall|k: int| 0 <= k < i ==> names[k] != address@,
        decreases list.len() - i,
    {
        if list[i] == *address {
            assert(names[i as int] == address@);
            return true;
        }
        i = i + 1;
    }
    false
}

/// Whether one of `parties` is on `list`.
fn any_party_listed(parties: &Vec<Transfer>, list: &Vec<String>) -> (r: bool)
    ensures
        r == any_listed(views(parties@), list@.map_values(|a: String| a@)),
{
    let ghost all = views(parties@);
    let ghost names = list@.map_values(|a: String| a@);
    let mut i: usize = 0;
    while i < parties.len()
        invariant
            all == views(parties@),
            names == list@.map_values(|a: String| a@),
            0 <= i <= parties.len(),
            forall|k: int| 0 <= k < i ==> !names.contains(#[trigger] all[k].address),
        decreases parties.len() - i,
    {
        if is_listed(list, &parties[i].address) {
            assert(names.contains(all[i as int].address));
            return true;
        }
        i = i + 1;
    }
    false
}

/// Whether one of `parties` has no address.
fn any_party_blank(parties: &Vec<Transfer>) -> (r: bool)
    ensures
        r == has_blank_address(views(parties@)),
{
    let ghost all = views(parties@);
    let mut i: usize = 0;
    while i < parties.len()
        invariant
            all == views(parties@),
            0 <= i <= parties.len(),
            forall|k: int| 0 <= k < i ==> (#[trigger] all[k].address).len() != 0,
        decreases parties.len() - i,
    {
        if parties[i].address.as_str().is_empty() {
            assert(all[i as int].address.len() == 0);
            return true;
        }
        i = i + 1;
    }
    false
}

/// Whether at least `min_count` of `parties` carry a value in `floor <= value < ceiling`.
fn band_reached(parties: &Vec<Transfer>, floor: u64, ceiling: u64, min_count: u64) -> (r: bool)
    ensures
        r == (count_in_band(views(parties@), floor as nat, ceiling as nat) >= min_count),
{
    let ghost all = views(parties@);
    let mut count: u64 = 0;
    let mut i: usize = 0;
    while i < parties.len()
        invariant
            all == views(parties@),
            0 <= i <= parties.len(),
            count == count_in_band(all.take(i as int), floor as nat, ceiling as nat),
            count <= i,
        decreases parties.len() - i,
    {
        proof {
            assert(all.take(i + 1).drop_last() =~= all.take(i as int));
            assert(all.take(i + 1).last() == parties@[i as int]@);
        }
        let v: u64 = parties[i].value;
        if floor <= v && v < ceiling {
            count = count + 1;
        }
        i = i + 1;
    }
    proof {
        assert(all.take(i as int) =~= all);
    }
    count >= min_count
}

impl RuleKind {
    /// Whether the transaction holds what a rule of this kind reads.
    pub fn reads(&self, tx: &TransactionRecord) -> (r: bool)
        ensures
            r == input_present(self@, tx@),
    {
        match self {
            RuleKind::SanctionsList { .. } => !any_party_blank(&tx.inputs) && !any_party_blank(
                &tx.outputs,
            ),
            RuleKind::Structuring { .. } => tx.outputs.len() > 0,
            RuleKind::Velocity { .. } => tx.inputs.len() > 0,
            RuleKind::LargeTransfer { .. } => tx.outputs.len() > 0,
            RuleKind::RiskyCounterparty { .. } => true,
        }
    }

    /// Whether a rule of this kind triggers on the transaction and its features.
    pub fn triggers(&self, tx: &TransactionRecord, features: &FeatureVector) -> (r: bool)
        ensures
            r == rule_triggers(self@, tx@, features@),
    {
        match self {
            RuleKind::SanctionsList { addresses } => any_party_listed(&tx.inputs, addresses)
                || any_party_listed(&tx.outputs, addresses),
            RuleKind::Structuring { floor, ceiling, min_count } => band_reached(
                &tx.outputs,
                *floor,
                *ceiling,
                *min_count,
            ),
            RuleKind::Velocity { max_recent } => features.source_activity_max > *max_recent,
            RuleKind::LargeTransfer { limit } => features.total_value >= *limit,
            RuleKind::RiskyCounterparty { min_risk } => features.counterparty_risk_max >= *min_risk,
        }
    }
}

/// Automated compliance engine: a table of rules and the dispatcher that
/// evaluates them.
///
/// A table built through [`ComplianceEngine::new`], [`ComplianceEngine::add_rule`]
/// and [`ComplianceEngine::set_weight`] is valid: every weight is at most one,
/// and no identifier occurs twice.
#[derive(Debug, Clone)]
pub struct ComplianceEngine {
    rules: Vec<Rule>,
}

impl View for ComplianceEngine {
    type V = Seq<RuleView>;

    closed spec fn view(&self) -> Seq<RuleView> {
        self.rules@.map_values(|r: Rule| r@)
    }
}

impl ComplianceEngine {
    /// Creates an engine with an empty rule table.
    pub fn new() -> (r: Self)
        ensures
            r@ == Seq::<RuleView>::empty(),
            rules_valid(r@),
    {
        let r = ComplianceEngine { rules: Vec::new() };
        assert(r@ =~= Seq::<RuleView>::empty());
        r
    }

    /// Tells whether the rule table is valid.
    pub fn check(&self) -> (r: Result<bool>)
        ensures
            r == Ok::<bool, Error>(rules_valid(self@)),
    {
        let mut i: usize = 0;
        while i < self.rules.len()
            invariant
                0 <= i <= self.rules.len(),
                rules_valid(self@.take(i as int)),
            decreases self.rules.len() - i,
        {
            if self.rules[i].weight > SCALE {
                assert(self@[i as int].weight > SCALE);
                return Ok(false);
            }
            let mut j: usize = 0;
            while j < i
                invariant
                    0 <= j <= i < self.rules.len(),
                    forall|k: int| 0 <= k < j ==> (#[trigger] self@[k]).id != self@[i as int].id,
                decreases i - j,
            {
                if self.rules[j].id == self.rules[i].id {
                    assert(self@[j as int].id == self@[i as int].id);
                    return Ok(false);
                }
                j = j + 1;
            }
            proof {
                let shorter = self@.take(i as int);
                let longer = self@.take(i + 1);
                assert forall|k: int| 0 <= k < longer.len() implies (#[trigger] longer[k]).weight
                    <= SCALE by {
                    if k < i {
                        assert(shorter[k].weight <= SCALE);
                    }
                }
                assert forall|a: int, b: int| 0 <= a < b < longer.len() implies (
                #[trigger] longer[a]).id != (#[trigger] longer[b]).id by {
                    if b < i {
                        assert(shorter[a].id != shorter[b].id);
                    } else {
                        assert(self@[a].id != self@[i as int].id);
                    }
                }
            }
            i = i + 1;
        }
        proof {
            assert(self@.take(i as int) =~= self@);
        }
        Ok(true)
    }

    /// The rule table.
    pub fn rules(&self) -> (r: &Vec<Rule>)
        ensures
            r@.map_values(|x: Rule| x@) == self@,
    {
        &self.rules
    }

    /// Position of the rule with identifier `id`, if the table holds one.
    fn position(&self, id: u64) -> (r: Option<usize>)
        ensures
            r is Some <==> has_rule(self@, id),
            r matches Some(i) ==> i < self@.len() && self@[i as int].id == id,
    {
        let mut i: usize = 0;
        while i < self.rules.len()
            invariant
                0 <= i <= self.rules.len(),
                forall|k: int| 0 <= k < i ==> (#[trigger] self@[k]).id != id,
            decreases self.rules.len() - i,
        {
            if self.rules[i].id == id {
                assert(self@[i as int].id == id);
                return Some(i);
            }
            i = i + 1;
        }
        None
    }

    /// Adds `rule` at the end of the table.
    ///
    /// The rule is taken, and `true` returned, where its weight is at most one
    /// and its identifier is new; otherwise the table stays as it was.
    pub fn add_rule(&mut self, rule: Rule) -> (r: bool)
        ensures
            r == (rule.weight <= SCALE && !has_rule(old(self)@, rule.id)),
            r ==> final(self)@ == old(self)@.push(rule@),
            !r ==> final(self)@ == old(self)@,
            rules_valid(old(self)@) ==> rules_valid(final(self)@),
    {
        if rule.weight > SCALE {
            return false;
        }
        if self.position(rule.id).is_some() {
            return false;
        }
        let ghost before = self@;
        let ghost added = rule@;
        self.rules.push(rule);
        proof {
            assert(self@ =~= before.push(added));
            if rules_valid(before) {
                assert forall|i: int, j: int| 0 <= i < j < self@.len() implies (
                #[trigger] self@[i]).id != (#[trigger] self@[j]).id by {
                    if j == before.len() {
                        assert(before[i].id != added.id);
                    } else {
                        assert(before[i].id != before[j].id);
                    }
                }
                assert forall|i: int| 0 <= i < self@.len() implies (#[trigger] self@[i]).weight
                    <= SCALE by {
                    if i < before.len() {
                        assert(before[i].weight <= SCALE);
                    }
                }
            }
        }
        true
    }

    /// Sets the weight of the rule with identifier `id` to `weight`.
    ///
    /// The weight is set, and `true` returned, where the table holds such a
    /// rule and `weight` is at most one; otherwise the table stays as it was.
    pub fn set_weight(&mut self, id: u64, weight: u64) -> (r: bool)
        ensures
            r == (weight <= SCALE && has_rule(old(self)@, id)),
            r ==> exists|i: int|
                0 <= i < old(self)@.len() && (#[trigger] old(self)@[i]).id == id && final(self)@
                    == with_weight(old(self)@, i, weight),
            !r ==> final(self)@ == old(self)@,
            rules_valid(old(self)@) ==> rules_valid(final(self)@),
    {
        if weight > SCALE {
            return false;
        }
        match self.position(id) {
            None => false,
            Some(i) => {
                let ghost before = self@;
                self.rules[i].weight = weight;
                proof {
                    assert(self@ =~= with_weight(before, i as int, weight));
                    if rules_valid(before) {
                        assert forall|a: int, b: int| 0 <= a < b < self@.len() implies (
                        #[trigger] self@[a]).id != (#[trigger] self@[b]).id by {
                            assert(before[a].id != before[b].id);
                        }
                        assert forall|a: int| 0 <= a < self@.len() implies (
                        #[trigger] self@[a]).weight <= SCALE by {
                            assert(before[a].weight <= SCALE);
                        }
                    }
                }
                true
            },
        }
    }

    /// Evaluates every rule of the table against `tx` and its `features`.
    ///
    /// Returns the rules that trigger, in table order, each with its weight; an
    /// empty result is a success. Fails only where the transaction lacks what
    /// some rule reads, and then names the first such rule.
    pub fn evaluate(&self, tx: &TransactionRecord, features: &FeatureVector) -> (r: Result<
        RuleResult,
    >)
        ensures
            match spec_evaluate(self@, tx@, features@) {
                Ok(triggered) => r matches Ok(found) && found@ == triggered,
                Err(e) => r == Err::<RuleResult, Error>(e),
            },
    {
        let ghost table = self@;
        let mut triggered: Vec<TriggeredRule> = Vec::new();
        let mut i: usize = 0;
        while i < self.rules.len()
            invariant
                table == self@,
                0 <= i <= self.rules.len(),
                first_unreadable(table.take(i as int), tx@) is None,
                triggered@ == triggered_rules(table.take(i as int), tx@, features@),
            decreases self.rules.len() - i,
        {
            proof {
                assert(table.take(i + 1).drop_last() =~= table.take(i as int));
                assert(table.take(i + 1).last() == self.rules@[i as int]@);
            }
            let rule = &self.rules[i];
            if !rule.kind.reads(tx) {
                proof {
                    lemma_first_unreadable_stays(table, i + 1, table.len() as int, tx@);
                    assert(table.take(table.len() as int) =~= table);
                }
                return Err(Error::RuleEvaluationError { rule_id: rule.id });
            }
            if rule.kind.triggers(tx, features) {
                triggered.push(TriggeredRule { id: rule.id, weight: rule.weight });
            }
            i = i + 1;
        }
        proof {
            assert(table.take(i as int) =~= table);
        }
        Ok(RuleResult { triggered })
    }
}

impl Default for ComplianceEngine {
    fn default() -> (r: Self)
        ensures
            r@ == Seq::<RuleView>::empty(),
            rules_valid(r@),
    {
        ComplianceEngine::new()
    }
}

/// Once a prefix of the table holds an unreadable rule, every longer prefix
/// names the same rule as its first.
pub proof fn lemma_first_unreadable_stays(rules: Seq<RuleView>, i: int, j: int, tx: TransactionView)
    requires
        0 <= i <= j <= rules.len(),
        first_unreadable(rules.take(i), tx) is Some,
    ensures
        first_unreadable(rules.take(j), tx) == first_unreadable(rules.take(i), tx),
    decreases j - i,
{
    if i < j {
        assert(rules.take(j).drop_last() =~= rules.take(j - 1));
        lemma_first_unreadable_stays(rules, i, j - 1, tx);
    }
}

/// Evaluation leaves no rule out: every rule of the table that triggers is in
/// the result, under its identifier and with its weight.
pub proof fn lemma_triggered_rules_complete(
    rules: Seq<RuleView>,
    tx: TransactionView,
    features: Map<Feature, nat>,
    index: int,
)
    requires
        0 <= index < rules.len(),
        rule_triggers(rules[index].kind, tx, features),
    ensures
        triggered_rules(rules, tx, features).contains(
            TriggeredRule { id: rules[index].id, weight: rules[index].weight },
        ),
    decreases rules.len(),
{
    let found = TriggeredRule { id: rules[index].id, weight: rules[index].weight };
    let rest = triggered_rules(rules.drop_last(), tx, features);
    if index == rules.len() - 1 {
        assert(rest.push(found)[rest.len() as int] == found);
    } else {
        lemma_triggered_rules_complete(rules.drop_last(), tx, features, index);
        let k = choose|k: int| 0 <= k < rest.len() && rest[k] == found;
        assert(triggered_rules(rules, tx, features)[k] == found);
    }
}

/// Evaluation adds nothing: every entry of the result stands for a rule of the
/// table that triggers, and carries that rule's identifier and weight.
pub proof fn lemma_triggered_rules_sound(
    rules: Seq<RuleView>,
    tx: TransactionView,
    features: Map<Feature, nat>,
    position: int,
)
    requires
        0 <= position < triggered_rules(rules, tx, features).len(),
    ensures
        exists|i: int|
            0 <= i < rules.len() && rule_triggers((#[trigger] rules[i]).kind, tx, features)
                && triggered_rules(rules, tx, features)[position] == (TriggeredRule {
                id: rules[i].id,
                weight: rules[i].weight,
            }),
    decreases rules.len(),
{
    let rest = triggered_rules(rules.drop_last(), tx, features);
    if position < rest.len() {
        lemma_triggered_rules_sound(rules.drop_last(), tx, features, position);
        let i = choose|i: int|
            0 <= i < rules.drop_last().len() && rule_triggers(
                (#[trigger] rules.drop_last()[i]).kind,
                tx,
                features,
            ) && rest[position] == (TriggeredRule {
                id: rules.drop_last()[i].id,
                weight: rules.drop_last()[i].weight,
            });
        assert(rules[i] == rules.drop_last()[i]);
    } else {
        let last = rules.len() - 1;
        assert(rule_triggers(rules[last].kind, tx, features));
    }
}

/// In the result of a valid table no weight exceeds one.
pub proof fn lemma_triggered_weights_in_unit_range(
    rules: Seq<RuleView>,
    tx: TransactionView,
    features: Map<Feature, nat>,
)
    requires
        rules_valid(rules),
    ensures
        forall|k: int|
            0 <= k < triggered_rules(rules, tx, features).len() ==> (#[trigger] triggered_rules(
                rules,
                tx,
                features,
            )[k]).weight <= SCALE,
{
    assert forall|k: int| 0 <= k < triggered_rules(rules, tx, features).len() implies (
    #[trigger] triggered_rules(rules, tx, features)[k]).weight <= SCALE by {
        lemma_triggered_rules_sound(rules, tx, features, k);
    }
}

/// AML check implementation.
pub struct AmlCheck;

/// KYC verification.
pub struct KycVerification;

} // verus!
