//! Scoring models, the risk score they produce, and the analyzer that runs a
//! transaction through the whole pipeline.

use vstd::prelude::*;
use vstd::string::StringExecFns;
use vstd::arithmetic::div_mod::lemma_div_is_ordered;
use vstd::arithmetic::mul::lemma_mul_inequality;
use crate::aicrm::SCALE;
use crate::aicrm::analytics::{capped_risk, Feature, FeatureVector};
use crate::aicrm::analytics::{extract, spec_extract};
use crate::aicrm::compliance::{
    first_unreadable, has_rule, spec_evaluate, triggered_rules, with_weight, ComplianceEngine,
    RuleResult, RuleView, TriggeredRule,
};
use crate::aicrm::error::{Error, Result};
use crate::aicrm::monitoring::{
    decide, spec_outcome, AlertManager, AlertView, Decision, DecisionView, Outcome, Thresholds,
};
use crate::aicrm::reporting::{gap_free, AuditEntry, AuditEntryView, AuditLedger};
use crate::aicrm::transaction::{HistorySnapshot, ProfileView, TransactionRecord, TransactionView};

verus! {

/// How a model turns rule results and features into a score.
#[derive(Debug, Clone, Copy, PartialEq, Eq, Structural)]
pub enum ModelKind {
    /// The sum of the triggered weights, multiplied by one plus `risk_gain`
    /// times the highest counterparty risk.
    WeightedSum { risk_gain: u64 },
    /// The highest triggered weight.
    MaxSeverity,
    /// A predictor outside this process, whose answer is handed in.
    External,
}

/// What contracts see of a registered model.
pub struct ModelView {
    pub version: Seq<char>,
    pub kind: ModelKind,
}

/// A scoring model under the version it is registered as.
#[derive(Debug, Clone)]
pub struct RiskModel {
    pub version: String,
    pub kind: ModelKind,
}

impl View for RiskModel {
    type V = ModelView;

    open spec fn view(&self) -> ModelView {
        ModelView { version: self.version@, kind: self.kind }
    }
}

/// A value above one counts as one.
pub open spec fn clamp_unit(raw: nat) -> nat {
    if raw > SCALE {
        SCALE as nat
    } else {
        raw
    }
}

/// Sum of the weights of `rules`.
pub open spec fn total_weight(rules: Seq<TriggeredRule>) -> nat
    decreases rules.len(),
{
    if rules.len() == 0 {
        0
    } else {
        total_weight(rules.drop_last()) + rules.last().weight as nat
    }
}

/// Highest weight among `rules`, zero where there are none.
pub open spec fn max_weight(rules: Seq<TriggeredRule>) -> nat
    decreases rules.len(),
{
    if rules.len() == 0 {
        0
    } else {
        let rest = max_weight(rules.drop_last());
        if rules.last().weight > rest {
            rules.last().weight as nat
        } else {
            rest
        }
    }
}

/// The multiplier of the weighted-sum model, in millionths: one plus
/// `risk_gain` times the highest counterparty risk.
pub open spec fn multiplier(risk_gain: u64, features: Map<Feature, nat>) -> nat {
    SCALE as nat + risk_gain as nat * capped_risk(features[Feature::CounterpartyRiskMax])
        / SCALE as nat
}

/// The score of the weighted-sum model.
pub open spec fn weighted_sum_score(
    risk_gain: u64,
    features: Map<Feature, nat>,
    rules: Seq<TriggeredRule>,
) -> nat {
    clamp_unit(total_weight(rules) * multiplier(risk_gain, features) / SCALE as nat)
}

/// The score that a model of kind `kind` gives, or the error it ends in.
///
/// `prediction` is the answer of the external predictor, `None` where it gave
/// none in time; only the external model reads it.
pub open spec fn model_score(
    kind: ModelKind,
    features: Map<Feature, nat>,
    rules: Seq<TriggeredRule>,
    prediction: Option<u64>,
) -> core::result::Result<nat, Error> {
    match kind {
        ModelKind::WeightedSum { risk_gain } => Ok(weighted_sum_score(risk_gain, features, rules)),
        ModelKind::MaxSeverity => Ok(clamp_unit(max_weight(rules))),
        ModelKind::External => match prediction {
            Some(p) => Ok(clamp_unit(p as nat)),
            None => Err(Error::ScoringTimeout),
        },
    }
}

/// The kind of the first model registered as `version`, if there is one.
pub open spec fn find_model(models: Seq<ModelView>, version: Seq<char>) -> Option<ModelKind>
    decreases models.len(),
{
    if models.len() == 0 {
        None
    } else if models[0].version == version {
        Some(models[0].kind)
    } else {
        find_model(models.drop_first(), version)
    }
}

/// The score that the model registered as `version` gives, or the error that
/// scoring ends in: `UnknownModelVersion` where no such model is registered,
/// `ScoringTimeout` where the model is external and gave no answer.
pub open spec fn spec_score(
    models: Seq<ModelView>,
    features: Map<Feature, nat>,
    rules: Seq<TriggeredRule>,
    version: Seq<char>,
    prediction: Option<u64>,
) -> core::result::Result<nat, Error> {
    match find_model(models, version) {
        None => Err(Error::UnknownModelVersion),
        Some(kind) => model_score(kind, features, rules, prediction),
    }
}

/// Whether `low` holds the same rules as `high` with no weight larger.
pub open spec fn weights_raised(low: Seq<TriggeredRule>, high: Seq<TriggeredRule>) -> bool {
    &&& low.len() == high.len()
    &&& forall|i: int|
        0 <= i < low.len() ==> (#[trigger] low[i]).id == high[i].id && low[i].weight
            <= high[i].weight
}

/// What holds of two results holds of them without their last entries, and of
/// the last entries themselves.
pub proof fn lemma_weights_raised_shrinks(low: Seq<TriggeredRule>, high: Seq<TriggeredRule>)
    requires
        weights_raised(low, high),
        low.len() > 0,
    ensures
        weights_raised(low.drop_last(), high.drop_last()),
        low.last().id == high.last().id,
        low.last().weight <= high.last().weight,
{
    assert(low[low.len() - 1].id == high[low.len() - 1].id && low[low.len() - 1].weight
        <= high[low.len() - 1].weight);
    assert forall|i: int| 0 <= i < low.drop_last().len() implies (
    #[trigger] low.drop_last()[i]).id == high.drop_last()[i].id && low.drop_last()[i].weight
        <= high.drop_last()[i].weight by {
        assert(low[i].id == high[i].id && low[i].weight <= high[i].weight);
    }
}

/// Raising weights never lowers their sum.
pub proof fn lemma_total_weight_monotone(low: Seq<TriggeredRule>, high: Seq<TriggeredRule>)
    requires
        weights_raised(low, high),
    ensures
        total_weight(low) <= total_weight(high),
    decreases low.len(),
{
    if low.len() > 0 {
        lemma_weights_raised_shrinks(low, high);
        lemma_total_weight_monotone(low.drop_last(), high.drop_last());
    }
}

/// Raising weights never lowers the highest of them.
pub proof fn lemma_max_weight_monotone(low: Seq<TriggeredRule>, high: Seq<TriggeredRule>)
    requires
        weights_raised(low, high),
    ensures
        max_weight(low) <= max_weight(high),
    decreases low.len(),
{
    if low.len() > 0 {
        lemma_weights_raised_shrinks(low, high);
        lemma_max_weight_monotone(low.drop_last(), high.drop_last());
    }
}

/// A larger weight total never gives a smaller product with the multiplier,
/// nor a smaller quotient.
pub proof fn lemma_scaled_monotone(a: nat, b: nat, m: nat)
    requires
        a <= b,
    ensures
        a * m / SCALE as nat <= b * m / SCALE as nat,
{
    lemma_mul_inequality(a as int, b as int, m as int);
    lemma_div_is_ordered(a as int * m as int, b as int * m as int, SCALE as int);
}

/// Raising the weight of rules never lowers the score of a model: whatever the
/// model, the features and the predictor's answer, the score with the raised
/// weights is at least the score before, and scoring fails after exactly where
/// it failed before.
pub proof fn lemma_model_score_monotone(
    kind: ModelKind,
    features: Map<Feature, nat>,
    low: Seq<TriggeredRule>,
    high: Seq<TriggeredRule>,
    prediction: Option<u64>,
)
    requires
        weights_raised(low, high),
    ensures
        match model_score(kind, features, low, prediction) {
            Ok(before) => model_score(kind, features, high, prediction) matches Ok(after) && before
                <= after,
            Err(e) => model_score(kind, features, high, prediction) == Err::<nat, Error>(e),
        },
{
    match kind {
        ModelKind::WeightedSum { risk_gain } => {
            lemma_total_weight_monotone(low, high);
            lemma_scaled_monotone(
                total_weight(low),
                total_weight(high),
                multiplier(risk_gain, features),
            );
        },
        ModelKind::MaxSeverity => {
            lemma_max_weight_monotone(low, high);
        },
        ModelKind::External => {},
    }
}

/// The sum of the weights, held at one where it exceeds it.
fn capped_total(rules: &Vec<TriggeredRule>) -> (r: u64)
    ensures
        r == clamp_unit(total_weight(rules@)),
{
    let mut acc: u64 = 0;
    let mut i: usize = 0;
    while i < rules.len()
        invariant
            0 <= i <= rules.len(),
            acc == clamp_unit(total_weight(rules@.take(i as int))),
        decreases rules.len() - i,
    {
        proof {
            assert(rules@.take(i + 1).drop_last() =~= rules@.take(i as int));
        }
        let w: u64 = rules[i].weight;
        if w >= SCALE - acc {
            acc = SCALE;
        } else {
            acc = acc + w;
        }
        i = i + 1;
    }
    proof {
        assert(rules@.take(i as int) =~= rules@);
    }
    acc
}

/// The highest of the weights.
fn highest_weight(rules: &Vec<TriggeredRule>) -> (r: u64)
    ensures
        r == max_weight(rules@),
{
    let mut best: u64 = 0;
    let mut i: usize = 0;
    while i < rules.len()
        invariant
            0 <= i <= rules.len(),
            best == max_weight(rules@.take(i as int)),
        decreases rules.len() - i,
    {
        proof {
            assert(rules@.take(i + 1).drop_last() =~= rules@.take(i as int));
        }
        if rules[i].weight > best {
            best = rules[i].weight;
        }
        i = i + 1;
    }
    proof {
        assert(rules@.take(i as int) =~= rules@);
    }
    best
}

/// With a weight total of one or more, the multiplied total is one or more too.
proof fn lemma_full_total_saturates(total: nat, m: nat)
    requires
        total >= SCALE,
        m >= SCALE,
    ensures
        total * m / SCALE as nat >= SCALE,
{
    assert(total * m >= SCALE * SCALE) by (nonlinear_arith)
        requires
            total >= SCALE,
            m >= SCALE,
    ;
    lemma_div_is_ordered(SCALE as int * SCALE as int, total as int * m as int, SCALE as int);
    assert(SCALE as int * SCALE as int / SCALE as int == SCALE) by (nonlinear_arith);
}

/// The score of the weighted-sum model.
fn weighted_sum(risk_gain: u64, features: &FeatureVector, rules: &Vec<TriggeredRule>) -> (r: u64)
    ensures
        r == weighted_sum_score(risk_gain, features@, rules@),
{
    let total: u64 = capped_total(rules);
    let risk: u64 = if features.counterparty_risk_max > SCALE {
        SCALE
    } else {
        features.counterparty_risk_max
    };
    assert(risk == capped_risk(features@[Feature::CounterpartyRiskMax]));
    assert(risk_gain as int * risk as int <= 0xffff_ffff_ffff_ffff * 1_000_000) by (nonlinear_arith)
        requires
            risk_gain <= 0xffff_ffff_ffff_ffff,
            risk <= 1_000_000,
    ;
    let boost: u128 = (risk_gain as u128 * risk as u128) / (SCALE as u128);
    proof {
        lemma_div_is_ordered(
            risk_gain as int * risk as int,
            0xffff_ffff_ffff_ffffint * 1_000_000int,
            SCALE as int,
        );
    }
    let m: u128 = SCALE as u128 + boost;
    assert(m == multiplier(risk_gain, features@));
    if total >= SCALE {
        proof {
            lemma_full_total_saturates(total_weight(rules@), m as nat);
        }
        return SCALE;
    }
    assert(total as int * m as int <= 1_000_000 * (1_000_000 + 0xffff_ffff_ffff_ffff))
        by (nonlinear_arith)
        requires
            total <= 1_000_000,
            m <= 1_000_000 + 0xffff_ffff_ffff_ffff,
    ;
    let raw: u128 = (total as u128 * m) / (SCALE as u128);
    if raw > SCALE as u128 {
        SCALE
    } else {
        raw as u64
    }
}

/// What contracts see of a risk score.
pub struct RiskScoreView {
    pub value: nat,
    pub model_version: Seq<char>,
    pub contributing: Seq<TriggeredRule>,
}

/// A risk score: a value between zero and one in millionths, the version of
/// the model that produced it, and the rule results that went into it.
///
/// A score cannot be changed once it exists, and its value never exceeds one.
#[derive(Debug)]
pub struct RiskScore {
    value: u64,
    model_version: String,
    contributing: RuleResult,
}

impl View for RiskScore {
    type V = RiskScoreView;

    closed spec fn view(&self) -> RiskScoreView {
        RiskScoreView {
            value: self.value as nat,
            model_version: self.model_version@,
            contributing: self.contributing@,
        }
    }
}

impl RiskScore {
    #[verifier::type_invariant]
    closed spec fn in_unit_range(&self) -> bool {
        self.value <= SCALE
    }

    /// Puts a score together; `None` where `value` exceeds one.
    pub fn new(value: u64, model_version: &str, contributing: &RuleResult) -> (r: Option<RiskScore>)
        ensures
            r is Some <==> value <= SCALE,
            r matches Some(s) ==> s@ == (RiskScoreView {
                value: value as nat,
                model_version: model_version@,
                contributing: contributing@,
            }),
    {
        if value > SCALE {
            None
        } else {
            Some(
                RiskScore {
                    value,
                    model_version: String::from_str(model_version),
                    contributing: contributing.duplicate(),
                },
            )
        }
    }

    /// The value of the score, in millionths.
    pub fn value(&self) -> (r: u64)
        ensures
            r == self@.value,
            r <= SCALE,
    {
        proof {
            use_type_invariant(self);
        }
        self.value
    }

    /// The version of the model that produced the score.
    pub fn model_version(&self) -> (r: &str)
        ensures
            r@ == self@.model_version,
    {
        self.model_version.as_str()
    }

    /// The rule results that went into the score.
    pub fn contributing(&self) -> (r: &RuleResult)
        ensures
            r@ == self@.contributing,
    {
        &self.contributing
    }

    /// A second score that holds the same value, version and rule results.
    pub fn duplicate(&self) -> (r: RiskScore)
        ensures
            r@ == self@,
    {
        proof {
            use_type_invariant(self);
        }
        RiskScore {
            value: self.value,
            model_version: self.model_version.clone(),
            contributing: self.contributing.duplicate(),
        }
    }
}

/// The scoring models that can be asked for, each under its version.
#[derive(Debug, Clone)]
pub struct ModelRegistry {
    models: Vec<RiskModel>,
}

impl View for ModelRegistry {
    type V = Seq<ModelView>;

    closed spec fn view(&self) -> Seq<ModelView> {
        self.models@.map_values(|m: RiskModel| m@)
    }
}

impl ModelRegistry {
    /// A registry without models.
    pub fn new() -> (r: Self)
        ensures
            r@ == Seq::<ModelView>::empty(),
    {
        let r = ModelRegistry { models: Vec::new() };
        assert(r@ =~= Seq::<ModelView>::empty());
        r
    }

    /// A registry that holds the plain weighted-sum model as `"v1"`.
    pub fn standard() -> (r: Self)
        ensures
            r@ == seq![
                ModelView { version: "v1"@, kind: ModelKind::WeightedSum { risk_gain: 0 } },
            ],
    {
        let mut models: Vec<RiskModel> = Vec::new();
        models.push(
            RiskModel { version: String::from_str("v1"), kind: ModelKind::WeightedSum { risk_gain: 0 } },
        );
        let r = ModelRegistry { models };
        assert(r@ =~= seq![
            ModelView { version: "v1"@, kind: ModelKind::WeightedSum { risk_gain: 0 } },
        ]);
        r
    }

    /// The registered models, in the order in which they were registered.
    pub fn models(&self) -> (r: &Vec<RiskModel>)
        ensures
            r@.map_values(|m: RiskModel| m@) == self@,
    {
        &self.models
    }

    /// The kind of the model registered as `version`, if there is one.
    pub fn resolve(&self, version: &str) -> (r: Option<ModelKind>)
        ensures
            r == find_model(self@, version@),
    {
        let wanted = String::from_str(version);
        let mut i: usize = 0;
        proof {
            assert(self@.skip(0) =~= self@);
        }
        while i < self.models.len()
            invariant
                0 <= i <= self.models.len(),
                wanted@ == version@,
                find_model(self@, version@) == find_model(self@.skip(i as int), version@),
            decreases self.models.len() - i,
        {
            proof {
                assert(self@.skip(i as int).drop_first() =~= self@.skip(i + 1));
                assert(self@.skip(i as int)[0] == self.models@[i as int]@);
            }
            if self.models[i].version == wanted {
                return Some(self.models[i].kind);
            }
            i = i + 1;
        }
        None
    }

    /// Registers `model` under its version.
    ///
    /// The model is taken, and `true` returned, where no model is registered
    /// under that version yet; otherwise the registry stays as it was.
    pub fn register(&mut self, model: RiskModel) -> (r: bool)
        ensures
            r == (find_model(old(self)@, model.version@) is None),
            r ==> final(self)@ == old(self)@.push(model@),
            !r ==> final(self)@ == old(self)@,
    {
        if self.resolve(model.version.as_str()).is_some() {
            return false;
        }
        let ghost before = self@;
        let ghost added = model@;
        self.models.push(model);
        proof {
            assert(self@ =~= before.push(added));
        }
        true
    }

    /// Whether scoring with `version` reads the answer of an external predictor.
    pub fn needs_prediction(&self, version: &str) -> (r: bool)
        ensures
            r == (find_model(self@, version@) == Some(ModelKind::External)),
    {
        match self.resolve(version) {
            Some(ModelKind::External) => true,
            _ => false,
        }
    }

    /// Scores one transaction with the model registered as `model_version`.
    ///
    /// The score depends on the arguments and the registry alone. `prediction`
    /// carries the answer of the external predictor and matters only where the
    /// model is external: `None` then says that no answer came in time.
    ///
    /// Fails with `UnknownModelVersion` where no model is registered as
    /// `model_version`, and with `ScoringTimeout` where the model is external
    /// and `prediction` is `None`.
    pub fn score(
        &self,
        features: &FeatureVector,
        rule_result: &RuleResult,
        model_version: &str,
        prediction: Option<u64>,
    ) -> (r: Result<RiskScore>)
        ensures
            match spec_score(self@, features@, rule_result@, model_version@, prediction) {
                Ok(value) => r matches Ok(s) && s@ == (RiskScoreView {
                    value,
                    model_version: model_version@,
                    contributing: rule_result@,
                }),
                Err(e) => r == Err::<RiskScore, Error>(e),
            },
    {
        let kind = match self.resolve(model_version) {
            None => {
                return Err(Error::UnknownModelVersion);
            },
            Some(kind) => kind,
        };
        let value: u64 = match kind {
            ModelKind::WeightedSum { risk_gain } => weighted_sum(
                risk_gain,
                features,
                &rule_result.triggered,
            ),
            ModelKind::MaxSeverity => {
                let best = highest_weight(&rule_result.triggered);
                if best > SCALE {
                    SCALE
                } else {
                    best
                }
            },
            ModelKind::External => match prediction {
                None => {
                    return Err(Error::ScoringTimeout);
                },
                Some(p) => if p > SCALE {
                    SCALE
                } else {
                    p
                },
            },
        };
        Ok(
            RiskScore {
                value,
                model_version: String::from_str(model_version),
                contributing: rule_result.duplicate(),
            },
        )
    }
}

impl Default for ModelRegistry {
    fn default() -> (r: Self)
        ensures
            r@ == Seq::<ModelView>::empty(),
    {
        ModelRegistry::new()
    }
}

/// What contracts see of an analyzer: the configuration it scores with.
pub struct AnalyzerView {
    pub rules: Seq<RuleView>,
    pub models: Seq<ModelView>,
    pub low: nat,
    pub high: nat,
    pub model_version: Seq<char>,
}

/// What one run of the pipeline finds.
pub struct Findings {
    pub features: Map<Feature, nat>,
    pub triggered: Seq<TriggeredRule>,
    pub value: nat,
    pub outcome: Outcome,
}

/// What a run of the pipeline finds, or the error it ends in: the first error
/// among extraction, rule evaluation and scoring, in that order.
pub open spec fn spec_analyze(
    config: AnalyzerView,
    tx: TransactionView,
    history: Option<Seq<ProfileView>>,
    prediction: Option<u64>,
) -> core::result::Result<Findings, Error> {
    match spec_extract(tx, history) {
        Err(e) => Err(e),
        Ok(features) => match spec_evaluate(config.rules, tx, features) {
            Err(e) => Err(e),
            Ok(triggered) => match spec_score(
                config.models,
                features,
                triggered,
                config.model_version,
                prediction,
            ) {
                Err(e) => Err(e),
                Ok(value) => Ok(
                    Findings {
                        features,
                        triggered,
                        value,
                        outcome: spec_outcome(value, config.low, config.high),
                    },
                ),
            },
        },
    }
}

/// The audit entry that records `findings` for transaction `tx_id` under
/// `sequence` at time `recorded_at`.
pub open spec fn entry_for(
    config: AnalyzerView,
    findings: Findings,
    tx_id: Seq<char>,
    sequence: u64,
    recorded_at: u64,
) -> AuditEntryView {
    AuditEntryView {
        sequence,
        tx_id,
        features: findings.features,
        decision: DecisionView {
            outcome: findings.outcome,
            score: RiskScoreView {
                value: findings.value,
                model_version: config.model_version,
                contributing: findings.triggered,
            },
            low: config.low,
            high: config.high,
        },
        recorded_at,
    }
}

/// What the analyzer hands back for a scored transaction: the decision, and the
/// sequence number of the audit entry that records it.
#[derive(Debug)]
pub struct Assessment {
    pub decision: Decision,
    pub sequence: u64,
}

/// Runs transactions through the pipeline: feature extraction, rule
/// evaluation, scoring, decision, audit.
#[derive(Debug)]
pub struct RiskAnalyzer {
    engine: ComplianceEngine,
    registry: ModelRegistry,
    thresholds: Thresholds,
    model_version: String,
}

impl View for RiskAnalyzer {
    type V = AnalyzerView;

    closed spec fn view(&self) -> AnalyzerView {
        AnalyzerView {
            rules: self.engine@,
            models: self.registry@,
            low: self.thresholds.spec_low() as nat,
            high: self.thresholds.spec_high() as nat,
            model_version: self.model_version@,
        }
    }
}

/// The configuration of an analyzer that nobody has configured: no rules, the
/// plain weighted-sum model as `"v1"`, thresholds of a quarter and three quarters.
pub open spec fn standard_config() -> AnalyzerView {
    AnalyzerView {
        rules: Seq::<RuleView>::empty(),
        models: seq![ModelView { version: "v1"@, kind: ModelKind::WeightedSum { risk_gain: 0 } }],
        low: 250_000,
        high: 750_000,
        model_version: "v1"@,
    }
}

impl RiskAnalyzer {
    /// Creates an analyzer with the standard configuration.
    pub fn new() -> (r: Self)
        ensures
            r@ == standard_config(),
    {
        RiskAnalyzer {
            engine: ComplianceEngine::new(),
            registry: ModelRegistry::standard(),
            thresholds: Thresholds::standard(),
            model_version: String::from_str("v1"),
        }
    }

    /// Creates a builder that starts from the standard configuration.
    pub fn builder() -> (r: RiskAnalyzerBuilder)
        ensures
            r@ == standard_config(),
    {
        RiskAnalyzerBuilder {
            engine: ComplianceEngine::new(),
            registry: ModelRegistry::standard(),
            low: 250_000,
            high: 750_000,
            model_version: String::from_str("v1"),
        }
    }

    /// The rule engine in use.
    pub fn engine(&self) -> (r: &ComplianceEngine)
        ensures
            r@ == self@.rules,
    {
        &self.engine
    }

    /// The model registry in use.
    pub fn registry(&self) -> (r: &ModelRegistry)
        ensures
            r@ == self@.models,
    {
        &self.registry
    }

    /// The thresholds in effect.
    pub fn thresholds(&self) -> (r: Thresholds)
        ensures
            r.spec_low() == self@.low,
            r.spec_high() == self@.high,
    {
        self.thresholds
    }

    /// The version of the model that scores.
    pub fn model_version(&self) -> (r: &str)
        ensures
            r@ == self@.model_version,
    {
        self.model_version.as_str()
    }

    /// Puts a new rule table in effect; nothing else changes.
    pub fn set_engine(&mut self, engine: ComplianceEngine)
        ensures
            final(self)@ == (AnalyzerView { rules: engine@, ..old(self)@ }),
    {
        self.engine = engine;
    }

    /// Sets the weight of the rule with identifier `id` to `weight`.
    ///
    /// The weight is set, and `true` returned, where the rule table holds such
    /// a rule and `weight` is at most one; otherwise nothing changes.
    pub fn set_rule_weight(&mut self, id: u64, weight: u64) -> (r: bool)
        ensures
            r == (weight <= SCALE && has_rule(old(self)@.rules, id)),
            r ==> exists|i: int|
                0 <= i < old(self)@.rules.len() && (#[trigger] old(self)@.rules[i]).id == id
                    && final(self)@ == (AnalyzerView {
                    rules: with_weight(old(self)@.rules, i, weight),
                    ..old(self)@
                }),
            !r ==> final(self)@ == old(self)@,
    {
        self.engine.set_weight(id, weight)
    }

    /// Puts new thresholds in effect; nothing else changes.
    pub fn set_thresholds(&mut self, thresholds: Thresholds)
        ensures
            final(self)@ == (AnalyzerView {
                low: thresholds.spec_low() as nat,
                high: thresholds.spec_high() as nat,
                ..old(self)@
            }),
    {
        self.thresholds = thresholds;
    }

    /// Puts a new model registry and active version in effect; nothing else changes.
    pub fn set_model(&mut self, registry: ModelRegistry, model_version: &str)
        ensures
            final(self)@ == (AnalyzerView {
                models: registry@,
                model_version: model_version@,
                ..old(self)@
            }),
    {
        self.registry = registry;
        self.model_version = String::from_str(model_version);
    }

    /// Scores `tx` and records the decision in `ledger`.
    ///
    /// The run extracts the features of `tx` against `history`, evaluates the
    /// rules, scores with the active model, decides by the thresholds, and
    /// appends exactly one audit entry: it carries the identifier of `tx`, the
    /// next sequence number of the ledger, and the time `now`. The decision and
    /// that sequence number are handed back.
    ///
    /// Where any step fails, the run fails with that step's error and the
    /// ledger stays as it was. `prediction` is the answer of the external
    /// predictor, read only where the active model is external.
    pub fn analyze_transaction(
        &self,
        tx: &TransactionRecord,
        history: &HistorySnapshot,
        prediction: Option<u64>,
        now: u64,
        ledger: &mut AuditLedger,
    ) -> (r: Result<Assessment>)
        ensures
            match spec_analyze(self@, tx@, history@, prediction) {
                Ok(findings) => r matches Ok(found) && found.sequence == old(ledger)@.len()
                    && found.decision@ == entry_for(
                    self@,
                    findings,
                    tx@.tx_id,
                    found.sequence,
                    now,
                ).decision && final(ledger)@ == old(ledger)@.push(
                    entry_for(self@, findings, tx@.tx_id, found.sequence, now),
                ),
                Err(e) => r == Err::<Assessment, Error>(e) && final(ledger)@ == old(ledger)@,
            },
            gap_free(final(ledger)@),
    {
        let sequence = ledger.next_sequence();
        let features = match extract(tx, history) {
            Ok(features) => features,
            Err(e) => {
                return Err(e);
            },
        };
        let rules = match self.engine.evaluate(tx, &features) {
            Ok(rules) => rules,
            Err(e) => {
                return Err(e);
            },
        };
        let score = match self.registry.score(
            &features,
            &rules,
            self.model_version.as_str(),
            prediction,
        ) {
            Ok(score) => score,
            Err(e) => {
                return Err(e);
            },
        };
        let decision = decide(score, &self.thresholds);
        let handed_back = decision.duplicate();
        let entry = AuditEntry::new(sequence, tx.tx_id.as_str(), features, decision, now);
        match ledger.append(entry) {
            Ok(sequence) => Ok(Assessment { decision: handed_back, sequence }),
            Err(e) => Err(e),
        }
    }

    /// Scores `tx`, records the decision in `ledger`, and queues an alert in
    /// `alerts` where the decision is to escalate.
    ///
    /// The run itself is that of [`RiskAnalyzer::analyze_transaction`]. An
    /// escalated decision adds one alert, which names the transaction, the
    /// sequence number of its audit entry and the score; any other decision,
    /// and a run that fails, leaves `alerts` as it was.
    pub fn analyze_and_notify(
        &self,
        tx: &TransactionRecord,
        history: &HistorySnapshot,
        prediction: Option<u64>,
        now: u64,
        ledger: &mut AuditLedger,
        alerts: &mut AlertManager,
    ) -> (r: Result<Assessment>)
        ensures
            match spec_analyze(self@, tx@, history@, prediction) {
                Ok(findings) => r matches Ok(found) && found.sequence == old(ledger)@.len()
                    && found.decision@ == entry_for(
                    self@,
                    findings,
                    tx@.tx_id,
                    found.sequence,
                    now,
                ).decision && final(ledger)@ == old(ledger)@.push(
                    entry_for(self@, findings, tx@.tx_id, found.sequence, now),
                ) && final(alerts)@ == if findings.outcome == Outcome::Escalate {
                    old(alerts)@.push(
                        AlertView {
                            tx_id: tx@.tx_id,
                            sequence: found.sequence,
                            score: findings.value as u64,
                        },
                    )
                } else {
                    old(alerts)@
                },
                Err(e) => r == Err::<Assessment, Error>(e) && final(ledger)@ == old(ledger)@
                    && final(alerts)@ == old(alerts)@,
            },
            gap_free(final(ledger)@),
    {
        match self.analyze_transaction(tx, history, prediction, now, ledger) {
            Ok(found) => {
                alerts.notify(tx.tx_id.as_str(), found.sequence, &found.decision);
                Ok(found)
            },
            Err(e) => Err(e),
        }
    }

    /// Scores the stored features and rule result of `entry` once more, with
    /// the model version that the entry names.
    pub fn replay(&self, entry: &AuditEntry, prediction: Option<u64>) -> (r: Result<RiskScore>)
        ensures
            match spec_score(
                self@.models,
                entry@.features,
                entry@.rule_result(),
                entry@.score().model_version,
                prediction,
            ) {
                Ok(value) => r matches Ok(s) && s@ == (RiskScoreView {
                    value,
                    model_version: entry@.score().model_version,
                    contributing: entry@.rule_result(),
                }),
                Err(e) => r == Err::<RiskScore, Error>(e),
            },
    {
        let features = entry.features();
        self.registry.score(
            &features,
            entry.rule_result(),
            entry.score().model_version(),
            prediction,
        )
    }
}

/// Builder for a risk analyzer.
#[derive(Debug)]
pub struct RiskAnalyzerBuilder {
    engine: ComplianceEngine,
    registry: ModelRegistry,
    low: u64,
    high: u64,
    model_version: String,
}

impl View for RiskAnalyzerBuilder {
    type V = AnalyzerView;

    closed spec fn view(&self) -> AnalyzerView {
        AnalyzerView {
            rules: self.engine@,
            models: self.registry@,
            low: self.low as nat,
            high: self.high as nat,
            model_version: self.model_version@,
        }
    }
}

impl RiskAnalyzerBuilder {
    /// Names the version of the model that is to score.
    pub fn with_ml_model(self, model: &str) -> (r: Self)
        ensures
            r@ == (AnalyzerView { model_version: model@, ..self@ }),
    {
        RiskAnalyzerBuilder {
            engine: self.engine,
            registry: self.registry,
            low: self.low,
            high: self.high,
            model_version: String::from_str(model),
        }
    }

    /// Sets the high threshold, in millionths: the score from which a
    /// transaction is escalated.
    ///
    /// The pair of thresholds stays in order: where the low threshold lies
    /// above the new high one, it is lowered to it.
    pub fn with_threshold(self, threshold: u64) -> (r: Self)
        ensures
            r@ == (AnalyzerView {
                low: if self@.low > threshold {
                    threshold as nat
                } else {
                    self@.low
                },
                high: threshold as nat,
                ..self@
            }),
    {
        RiskAnalyzerBuilder {
            engine: self.engine,
            registry: self.registry,
            low: if self.low > threshold {
                threshold
            } else {
                self.low
            },
            high: threshold,
            model_version: self.model_version,
        }
    }

    /// Sets the low threshold, in millionths: the score from which a
    /// transaction is held.
    ///
    /// The pair of thresholds stays in order: where the high threshold lies
    /// below the new low one, it is raised to it.
    pub fn with_low_threshold(self, threshold: u64) -> (r: Self)
        ensures
            r@ == (AnalyzerView {
                low: threshold as nat,
                high: if self@.high < threshold {
                    threshold as nat
                } else {
                    self@.high
                },
                ..self@
            }),
    {
        RiskAnalyzerBuilder {
            engine: self.engine,
            registry: self.registry,
            low: threshold,
            high: if self.high < threshold {
                threshold
            } else {
                self.high
            },
            model_version: self.model_version,
        }
    }

    /// Sets the rule engine.
    pub fn with_engine(self, engine: ComplianceEngine) -> (r: Self)
        ensures
            r@ == (AnalyzerView { rules: engine@, ..self@ }),
    {
        RiskAnalyzerBuilder {
            engine,
            registry: self.registry,
            low: self.low,
            high: self.high,
            model_version: self.model_version,
        }
    }

    /// Sets the model registry.
    pub fn with_registry(self, registry: ModelRegistry) -> (r: Self)
        ensures
            r@ == (AnalyzerView { models: registry@, ..self@ }),
    {
        RiskAnalyzerBuilder {
            engine: self.engine,
            registry,
            low: self.low,
            high: self.high,
            model_version: self.model_version,
        }
    }

    /// Builds the analyzer.
    ///
    /// Succeeds where the thresholds satisfy `low <= high <= 1`, and fails with
    /// a `RiskAnalysis` error where they do not. The model version is not
    /// looked up here: a version that the registry does not hold is met at
    /// scoring.
    pub fn build(self) -> (r: Result<RiskAnalyzer>)
        ensures
            self@.low <= self@.high <= SCALE ==> (r matches Ok(a) && a@ == self@),
            !(self@.low <= self@.high <= SCALE) ==> (r matches Err(Error::RiskAnalysis(m)) && m@
                == "thresholds must satisfy low <= high <= 1"@),
    {
        let thresholds = match Thresholds::new(self.low, self.high) {
            Some(t) => t,
            None => {
                return Err(Error::risk_analysis("thresholds must satisfy low <= high <= 1"));
            },
        };
        Ok(
            RiskAnalyzer {
                engine: self.engine,
                registry: self.registry,
                thresholds,
                model_version: self.model_version,
            },
        )
    }
}

/// Whether `high` is the rule table `low` with some weights raised: the same
/// rules in the same order, each with a weight at least as large.
pub open spec fn table_raised(low: Seq<RuleView>, high: Seq<RuleView>) -> bool {
    &&& low.len() == high.len()
    &&& forall|i: int|
        0 <= i < low.len() ==> (#[trigger] low[i]).id == high[i].id && low[i].kind == high[i].kind
            && low[i].weight <= high[i].weight
}

/// What holds of two rule tables holds of them without their last rules, and
/// of the last rules themselves.
pub proof fn lemma_table_raised_shrinks(low: Seq<RuleView>, high: Seq<RuleView>)
    requires
        table_raised(low, high),
        low.len() > 0,
    ensures
        table_raised(low.drop_last(), high.drop_last()),
        low.last().id == high.last().id,
        low.last().kind == high.last().kind,
        low.last().weight <= high.last().weight,
{
    let last = low.len() - 1;
    assert(low[last].id == high[last].id && low[last].kind == high[last].kind && low[last].weight
        <= high[last].weight);
    assert forall|i: int| 0 <= i < low.drop_last().len() implies (
    #[trigger] low.drop_last()[i]).id == high.drop_last()[i].id && low.drop_last()[i].kind
        == high.drop_last()[i].kind && low.drop_last()[i].weight <= high.drop_last()[i].weight by {
        assert(low[i].id == high[i].id && low[i].kind == high[i].kind && low[i].weight
            <= high[i].weight);
    }
}

/// Raising weights in the rule table changes neither which rules can read the
/// transaction nor which rules trigger; it only raises the triggered weights.
pub proof fn lemma_evaluate_follows_table(
    low: Seq<RuleView>,
    high: Seq<RuleView>,
    tx: TransactionView,
    features: Map<Feature, nat>,
)
    requires
        table_raised(low, high),
    ensures
        first_unreadable(low, tx) == first_unreadable(high, tx),
        weights_raised(triggered_rules(low, tx, features), triggered_rules(high, tx, features)),
    decreases low.len(),
{
    if low.len() > 0 {
        lemma_table_raised_shrinks(low, high);
        lemma_evaluate_follows_table(low.drop_last(), high.drop_last(), tx, features);
    }
}

/// Raising the weight of any single rule, with everything else unchanged,
/// never lowers the risk score.
///
/// The run with the raised weight fails exactly where the run before failed,
/// with the same error; where both succeed they see the same features and the
/// score after is at least the score before.
pub proof fn lemma_raising_weight_never_lowers_score(
    config: AnalyzerView,
    index: int,
    weight: u64,
    tx: TransactionView,
    history: Option<Seq<ProfileView>>,
    prediction: Option<u64>,
)
    requires
        0 <= index < config.rules.len(),
        config.rules[index].weight <= weight,
    ensures
        match spec_analyze(config, tx, history, prediction) {
            Ok(before) => spec_analyze(
                AnalyzerView { rules: with_weight(config.rules, index, weight), ..config },
                tx,
                history,
                prediction,
            ) matches Ok(after) && after.features == before.features && before.value
                <= after.value,
            Err(e) => spec_analyze(
                AnalyzerView { rules: with_weight(config.rules, index, weight), ..config },
                tx,
                history,
                prediction,
            ) == Err::<Findings, Error>(e),
        },
{
    let raised = with_weight(config.rules, index, weight);
    assert(table_raised(config.rules, raised));
    match spec_extract(tx, history) {
        Err(_) => {},
        Ok(features) => {
            lemma_evaluate_follows_table(config.rules, raised, tx, features);
            match find_model(config.models, config.model_version) {
                None => {},
                Some(kind) => {
                    lemma_model_score_monotone(
                        kind,
                        features,
                        triggered_rules(config.rules, tx, features),
                        triggered_rules(raised, tx, features),
                        prediction,
                    );
                },
            }
        },
    }
}

/// Scoring the features and rule result that an audit entry stores, through the
/// model version it names, gives the score that the entry stores.
///
/// This holds of every entry that a run of the pipeline records, as long as
/// the registry and the predictor's answer are those of the run.
pub proof fn lemma_replay_reproduces_score(
    config: AnalyzerView,
    tx: TransactionView,
    history: Option<Seq<ProfileView>>,
    prediction: Option<u64>,
    sequence: u64,
    recorded_at: u64,
)
    requires
        spec_analyze(config, tx, history, prediction) is Ok,
    ensures
        ({
            let findings = spec_analyze(config, tx, history, prediction)->Ok_0;
            let entry = entry_for(config, findings, tx.tx_id, sequence, recorded_at);
            spec_score(
                config.models,
                entry.features,
                entry.rule_result(),
                entry.score().model_version,
                prediction,
            ) == Ok::<nat, Error>(entry.score().value)
        }),
{
}

/// Swapping the model version changes neither the features nor the rule
/// result of a run.
pub proof fn lemma_model_version_leaves_inputs(
    config: AnalyzerView,
    other_version: Seq<char>,
    tx: TransactionView,
    history: Option<Seq<ProfileView>>,
    prediction: Option<u64>,
)
    requires
        spec_analyze(config, tx, history, prediction) is Ok,
        spec_analyze(
            AnalyzerView { model_version: other_version, ..config },
            tx,
            history,
            prediction,
        ) is Ok,
    ensures
        ({
            let one = spec_analyze(config, tx, history, prediction)->Ok_0;
            let other = spec_analyze(
                AnalyzerView { model_version: other_version, ..config },
                tx,
                history,
                prediction,
            )->Ok_0;
            one.features == other.features && one.triggered == other.triggered
        }),
{
}

} // verus!
