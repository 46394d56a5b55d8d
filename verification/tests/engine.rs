use btc_suite::aicrm::{
    decide, extract, AlertManager, AuditCursor, AuditEntry, AuditLedger, ComplianceEngine,
    CounterpartyProfile, Error, Feature, FeatureVector, HistorySnapshot, ModelKind, ModelRegistry,
    Outcome, RiskAnalyzer, RiskModel, RiskScore, Rule, RuleKind, RuleResult, Thresholds,
    TransactionMonitor, TransactionRecord, TriggeredRule, TxInput, TxOutput, TxState, SCALE,
};

fn input(address: &str, value: u64) -> TxInput {
    TxInput { address: address.to_string(), value }
}

fn output(address: &str, value: u64) -> TxOutput {
    TxOutput { address: address.to_string(), value }
}

fn record(tx_id: &str, inputs: Vec<TxInput>, outputs: Vec<TxOutput>, fee: u64) -> TransactionRecord {
    TransactionRecord {
        chain_id: 1,
        tx_id: tx_id.to_string(),
        inputs,
        outputs,
        timestamp: 1_700_000_000,
        fee,
    }
}

fn profile(address: &str, risk: u64, recent_tx_count: u64) -> CounterpartyProfile {
    CounterpartyProfile { address: address.to_string(), risk, recent_tx_count }
}

fn history(rows: Vec<CounterpartyProfile>) -> HistorySnapshot {
    HistorySnapshot { risk_table: Some(rows) }
}

fn simple_tx() -> TransactionRecord {
    record("tx-simple", vec![input("alice", 100_000)], vec![output("bob", 100_000)], 0)
}

fn busy_tx() -> TransactionRecord {
    record(
        "tx-busy",
        vec![input("alice", 70_000), input("barbara", 50_000)],
        vec![output("carol", 9_500), output("dave", 9_900), output("erin", 100_000)],
        600,
    )
}

fn busy_history() -> HistorySnapshot {
    history(vec![
        profile("alice", 100_000, 3),
        profile("carol", 400_000, 50),
        profile("zed", 900_000, 70),
    ])
}

fn sanctions_rule(id: u64, weight: u64, names: &[&str]) -> Rule {
    Rule {
        id,
        weight,
        kind: RuleKind::SanctionsList { addresses: names.iter().map(|n| n.to_string()).collect() },
    }
}

fn features_with_risk(risk: u64) -> FeatureVector {
    FeatureVector {
        fan_in_count: 1,
        fan_out_count: 1,
        total_value: 100_000,
        max_output_value: 100_000,
        fee: 0,
        counterparty_risk_max: risk,
        source_activity_max: 0,
    }
}

fn triggered(pairs: &[(u64, u64)]) -> RuleResult {
    RuleResult {
        triggered: pairs.iter().map(|(id, weight)| TriggeredRule { id: *id, weight: *weight }).collect(),
    }
}

fn registry_with(version: &str, kind: ModelKind) -> ModelRegistry {
    let mut registry = ModelRegistry::standard();
    assert!(registry.register(RiskModel { version: version.to_string(), kind }));
    registry
}

#[test]
fn extract_computes_every_feature() {
    let fv = extract(&busy_tx(), &busy_history()).unwrap();
    assert_eq!(fv.fan_in_count, 2);
    assert_eq!(fv.fan_out_count, 3);
    assert_eq!(fv.total_value, 119_400);
    assert_eq!(fv.max_output_value, 100_000);
    assert_eq!(fv.fee, 600);
    assert_eq!(fv.counterparty_risk_max, 400_000);
    assert_eq!(fv.source_activity_max, 3);
    assert_eq!(fv.get(Feature::FanOutCount), 3);
    assert_eq!(fv.get(Feature::TotalValue), 119_400);
    assert_eq!(fv.get(Feature::CounterpartyRiskMax), 400_000);
    assert_eq!(fv.get(Feature::FanInCount), 2);
    assert_eq!(fv.get(Feature::MaxOutputValue), 100_000);
    assert_eq!(fv.get(Feature::Fee), 600);
    assert_eq!(fv.get(Feature::SourceActivityMax), 3);
}

#[test]
fn feature_names_are_stable() {
    assert_eq!(Feature::FanInCount.name(), "fan_in_count");
    assert_eq!(Feature::FanOutCount.name(), "fan_out_count");
    assert_eq!(Feature::TotalValue.name(), "total_value");
    assert_eq!(Feature::MaxOutputValue.name(), "max_output_value");
    assert_eq!(Feature::Fee.name(), "fee");
    assert_eq!(Feature::CounterpartyRiskMax.name(), "counterparty_risk_max");
    assert_eq!(Feature::SourceActivityMax.name(), "source_activity_max");
}

#[test]
fn extract_twice_gives_identical_vectors() {
    let tx = busy_tx();
    let snapshot = busy_history();
    let first = extract(&tx, &snapshot).unwrap();
    let second = extract(&tx, &snapshot).unwrap();
    assert_eq!(first, second);
    let same_content = extract(&busy_tx(), &busy_history()).unwrap();
    assert_eq!(first, same_content);
}

#[test]
fn extract_fails_without_risk_table() {
    let missing = HistorySnapshot { risk_table: None };
    assert!(matches!(extract(&simple_tx(), &missing), Err(Error::InsufficientData)));
}

#[test]
fn extract_of_empty_transaction_is_all_zero() {
    let tx = record("tx-empty", vec![], vec![], 0);
    let fv = extract(&tx, &history(vec![])).unwrap();
    assert_eq!(
        fv,
        FeatureVector {
            fan_in_count: 0,
            fan_out_count: 0,
            total_value: 0,
            max_output_value: 0,
            fee: 0,
            counterparty_risk_max: 0,
            source_activity_max: 0,
        }
    );
}

#[test]
fn extract_caps_recorded_risk_at_one() {
    let snapshot = history(vec![profile("bob", 5_000_000, 1)]);
    let fv = extract(&simple_tx(), &snapshot).unwrap();
    assert_eq!(fv.counterparty_risk_max, SCALE);
    assert_eq!(fv.source_activity_max, 0);
}

#[test]
fn extract_takes_the_strictest_of_repeated_profiles() {
    let snapshot = history(vec![
        profile("alice", 100_000, 9),
        profile("alice", 300_000, 2),
        profile("alice", 200_000, 4),
    ]);
    let fv = extract(&simple_tx(), &snapshot).unwrap();
    assert_eq!(fv.counterparty_risk_max, 300_000);
    assert_eq!(fv.source_activity_max, 9);
}

#[test]
fn extract_holds_total_value_at_the_largest_number() {
    let tx = record(
        "tx-huge",
        vec![input("alice", 1)],
        vec![output("bob", u64::MAX), output("carol", 5)],
        0,
    );
    assert_eq!(tx.total_output(), None);
    let fv = extract(&tx, &history(vec![])).unwrap();
    assert_eq!(fv.total_value, u64::MAX);
    assert_eq!(fv.max_output_value, u64::MAX);
    assert_eq!(busy_tx().total_output(), Some(119_400));
}

#[test]
fn engine_accepts_valid_rules_only() {
    let mut engine = ComplianceEngine::new();
    assert_eq!(engine.check().unwrap(), true);
    assert!(engine.add_rule(sanctions_rule(1, 1_000_000, &["mallory"])));
    assert!(!engine.add_rule(sanctions_rule(1, 10, &["x"])));
    assert!(!engine.add_rule(sanctions_rule(2, 1_000_001, &["x"])));
    assert!(engine.add_rule(Rule { id: 2, weight: 0, kind: RuleKind::Velocity { max_recent: 5 } }));
    assert_eq!(engine.rules().len(), 2);
    assert_eq!(engine.check().unwrap(), true);
    assert_eq!(ComplianceEngine::default().rules().len(), 0);
}

#[test]
fn engine_sets_weights_by_identifier() {
    let mut engine = ComplianceEngine::new();
    assert!(engine.add_rule(sanctions_rule(7, 100, &["mallory"])));
    assert!(engine.add_rule(Rule { id: 8, weight: 200, kind: RuleKind::LargeTransfer { limit: 1 } }));
    assert!(engine.set_weight(8, 900_000));
    assert!(!engine.set_weight(9, 1));
    assert!(!engine.set_weight(7, SCALE + 1));
    assert_eq!(engine.rules()[0].weight, 100);
    assert_eq!(engine.rules()[1].weight, 900_000);
    assert_eq!(engine.rules()[1].id, 8);
}

#[test]
fn evaluate_reports_every_triggered_rule_in_table_order() {
    let mut engine = ComplianceEngine::new();
    assert!(engine.add_rule(sanctions_rule(10, 1_000_000, &["mallory", "dave"])));
    assert!(engine.add_rule(Rule {
        id: 20,
        weight: 300_000,
        kind: RuleKind::Structuring { floor: 9_000, ceiling: 10_000, min_count: 2 },
    }));
    assert!(engine.add_rule(Rule { id: 30, weight: 200_000, kind: RuleKind::Velocity { max_recent: 3 } }));
    assert!(engine.add_rule(Rule {
        id: 40,
        weight: 150_000,
        kind: RuleKind::LargeTransfer { limit: 119_400 },
    }));
    assert!(engine.add_rule(Rule {
        id: 50,
        weight: 50_000,
        kind: RuleKind::RiskyCounterparty { min_risk: 400_001 },
    }));
    let tx = busy_tx();
    let fv = extract(&tx, &busy_history()).unwrap();
    let result = engine.evaluate(&tx, &fv).unwrap();
    assert_eq!(
        result.triggered,
        vec![
            TriggeredRule { id: 10, weight: 1_000_000 },
            TriggeredRule { id: 20, weight: 300_000 },
            TriggeredRule { id: 40, weight: 150_000 },
        ]
    );
    assert!(result.contains(20));
    assert!(!result.contains(30));
    assert_eq!(result.duplicate().triggered, result.triggered);
}

#[test]
fn evaluate_without_match_is_a_success() {
    let mut engine = ComplianceEngine::new();
    assert!(engine.add_rule(sanctions_rule(1, 1_000_000, &["mallory"])));
    let tx = simple_tx();
    let fv = extract(&tx, &history(vec![])).unwrap();
    let result = engine.evaluate(&tx, &fv).unwrap();
    assert!(result.triggered.is_empty());
    assert!(RuleResult::new().triggered.is_empty());
}

#[test]
fn evaluate_names_the_first_rule_that_cannot_read_the_transaction() {
    let mut engine = ComplianceEngine::new();
    assert!(engine.add_rule(Rule {
        id: 5,
        weight: 1,
        kind: RuleKind::RiskyCounterparty { min_risk: 0 },
    }));
    assert!(engine.add_rule(Rule { id: 6, weight: 1, kind: RuleKind::Velocity { max_recent: 0 } }));
    assert!(engine.add_rule(Rule { id: 7, weight: 1, kind: RuleKind::LargeTransfer { limit: 0 } }));
    let no_inputs = record("tx-a", vec![], vec![output("bob", 1)], 0);
    let fv = extract(&no_inputs, &history(vec![])).unwrap();
    assert!(matches!(
        engine.evaluate(&no_inputs, &fv),
        Err(Error::RuleEvaluationError { rule_id: 6 })
    ));
    let no_outputs = record("tx-b", vec![input("alice", 1)], vec![], 0);
    let fv = extract(&no_outputs, &history(vec![])).unwrap();
    assert!(matches!(
        engine.evaluate(&no_outputs, &fv),
        Err(Error::RuleEvaluationError { rule_id: 7 })
    ));
}

#[test]
fn sanctions_rule_needs_every_address() {
    let mut engine = ComplianceEngine::new();
    assert!(engine.add_rule(sanctions_rule(3, 1_000_000, &["mallory"])));
    let blank = record("tx-c", vec![input("alice", 1)], vec![output("", 1)], 0);
    let fv = extract(&blank, &history(vec![])).unwrap();
    assert!(matches!(engine.evaluate(&blank, &fv), Err(Error::RuleEvaluationError { rule_id: 3 })));
    let kind = RuleKind::SanctionsList { addresses: vec![] };
    assert!(!kind.reads(&blank));
    assert!(kind.reads(&simple_tx()));
    assert!(!kind.triggers(&simple_tx(), &fv));
    let structuring = RuleKind::Structuring { floor: 0, ceiling: 1, min_count: 1 };
    assert!(!structuring.reads(&record("tx-d", vec![], vec![], 0)));
}

#[test]
fn structuring_counts_outputs_inside_the_band_only() {
    let tx = busy_tx();
    let fv = extract(&tx, &busy_history()).unwrap();
    let two = RuleKind::Structuring { floor: 9_500, ceiling: 9_901, min_count: 2 };
    let edge = RuleKind::Structuring { floor: 9_500, ceiling: 9_900, min_count: 2 };
    let one = RuleKind::Structuring { floor: 9_500, ceiling: 9_900, min_count: 1 };
    assert!(two.triggers(&tx, &fv));
    assert!(!edge.triggers(&tx, &fv));
    assert!(one.triggers(&tx, &fv));
}

#[test]
fn weighted_sum_multiplies_by_counterparty_risk() {
    let registry = registry_with("v2", ModelKind::WeightedSum { risk_gain: 500_000 });
    let rules = triggered(&[(1, 200_000), (2, 300_000)]);
    let score = registry.score(&features_with_risk(400_000), &rules, "v2", None).unwrap();
    assert_eq!(score.value(), 600_000);
    assert_eq!(score.model_version(), "v2");
    assert_eq!(score.contributing().triggered, rules.triggered);
    let plain = registry.score(&features_with_risk(400_000), &rules, "v1", None).unwrap();
    assert_eq!(plain.value(), 500_000);
}

#[test]
fn weighted_sum_rounds_down_and_clamps_to_one() {
    let registry = registry_with("v2", ModelKind::WeightedSum { risk_gain: 333_333 });
    let rules = triggered(&[(1, 7)]);
    let score = registry.score(&features_with_risk(1_000_000), &rules, "v2", None).unwrap();
    assert_eq!(score.value(), 9);
    let heavy = triggered(&[(1, 900_000), (2, 900_000)]);
    assert_eq!(registry.score(&features_with_risk(0), &heavy, "v1", None).unwrap().value(), SCALE);
    let extreme = registry_with("v3", ModelKind::WeightedSum { risk_gain: u64::MAX });
    let nearly = triggered(&[(1, 999_999)]);
    let top = extreme.score(&features_with_risk(u64::MAX), &nearly, "v3", None).unwrap();
    assert_eq!(top.value(), SCALE);
    let huge = triggered(&[(1, u64::MAX), (2, u64::MAX)]);
    assert_eq!(extreme.score(&features_with_risk(5), &huge, "v3", None).unwrap().value(), SCALE);
}

#[test]
fn max_severity_takes_the_highest_weight() {
    let registry = registry_with("max", ModelKind::MaxSeverity);
    let rules = triggered(&[(1, 200_000), (2, 650_000), (3, 300_000)]);
    assert_eq!(registry.score(&features_with_risk(0), &rules, "max", None).unwrap().value(), 650_000);
    assert_eq!(
        registry.score(&features_with_risk(0), &RuleResult::new(), "max", None).unwrap().value(),
        0
    );
    let over = triggered(&[(1, 2_000_000)]);
    assert_eq!(registry.score(&features_with_risk(0), &over, "max", None).unwrap().value(), SCALE);
}

#[test]
fn external_model_uses_the_prediction_or_times_out() {
    let registry = registry_with("remote", ModelKind::External);
    let rules = triggered(&[(1, 200_000)]);
    let fv = features_with_risk(0);
    assert_eq!(registry.score(&fv, &rules, "remote", Some(420_000)).unwrap().value(), 420_000);
    assert_eq!(registry.score(&fv, &rules, "remote", Some(9_000_000)).unwrap().value(), SCALE);
    assert!(matches!(registry.score(&fv, &rules, "remote", None), Err(Error::ScoringTimeout)));
    assert!(registry.needs_prediction("remote"));
    assert!(!registry.needs_prediction("v1"));
    assert!(!registry.needs_prediction("nope"));
}

#[test]
fn unknown_model_version_is_refused() {
    let registry = ModelRegistry::standard();
    let result = registry.score(&features_with_risk(0), &RuleResult::new(), "v9", Some(1));
    assert!(matches!(result, Err(Error::UnknownModelVersion)));
    let empty = ModelRegistry::new();
    assert!(matches!(
        empty.score(&features_with_risk(0), &RuleResult::new(), "v1", None),
        Err(Error::UnknownModelVersion)
    ));
    assert_eq!(ModelRegistry::default().models().len(), 0);
}

#[test]
fn registry_keeps_the_first_model_of_a_version() {
    let mut registry = ModelRegistry::standard();
    assert_eq!(registry.resolve("v1"), Some(ModelKind::WeightedSum { risk_gain: 0 }));
    assert!(!registry.register(RiskModel { version: "v1".to_string(), kind: ModelKind::MaxSeverity }));
    assert_eq!(registry.resolve("v1"), Some(ModelKind::WeightedSum { risk_gain: 0 }));
    assert!(registry.register(RiskModel { version: "v2".to_string(), kind: ModelKind::MaxSeverity }));
    assert_eq!(registry.resolve("v2"), Some(ModelKind::MaxSeverity));
    assert_eq!(registry.resolve("v3"), None);
    assert_eq!(registry.models().len(), 2);
}

#[test]
fn raising_one_weight_never_lowers_the_score() {
    let registry = registry_with("v2", ModelKind::WeightedSum { risk_gain: 250_000 });
    let registry = {
        let mut r = registry;
        assert!(r.register(RiskModel { version: "max".to_string(), kind: ModelKind::MaxSeverity }));
        r
    };
    let fv = features_with_risk(300_000);
    for version in ["v1", "v2", "max"] {
        let mut last = 0;
        for weight in [0, 1, 100_000, 250_000, 600_000, 999_999, 1_000_000] {
            let rules = triggered(&[(1, 150_000), (2, weight), (3, 50_000)]);
            let value = registry.score(&fv, &rules, version, None).unwrap().value();
            assert!(value >= last);
            last = value;
        }
    }
}

#[test]
fn raising_a_rule_weight_in_the_table_never_lowers_the_score() {
    let tx = busy_tx();
    let snapshot = busy_history();
    let mut last = 0;
    for weight in [0, 10, 200_000, 500_000, 1_000_000] {
        let mut engine = ComplianceEngine::new();
        assert!(engine.add_rule(Rule {
            id: 1,
            weight: 100_000,
            kind: RuleKind::LargeTransfer { limit: 100 },
        }));
        assert!(engine.add_rule(sanctions_rule(2, 0, &["dave"])));
        assert!(engine.set_weight(2, weight));
        let analyzer = RiskAnalyzer::builder().with_engine(engine).build().unwrap();
        let mut ledger = AuditLedger::new();
        let found = analyzer.analyze_transaction(&tx, &snapshot, None, 1, &mut ledger).unwrap();
        let value = found.decision.score().value();
        assert_eq!(value, 100_000 + weight.min(900_000));
        assert!(value >= last);
        last = value;
    }
}

#[test]
fn score_at_the_high_threshold_is_escalated() {
    let thresholds = Thresholds::new(250_000, 750_000).unwrap();
    assert_eq!(thresholds.classify(750_000), Outcome::Escalate);
    assert_eq!(thresholds.classify(749_999), Outcome::Hold);
    assert_eq!(thresholds.classify(250_000), Outcome::Hold);
    assert_eq!(thresholds.classify(249_999), Outcome::Approve);
    assert_eq!(thresholds.classify(0), Outcome::Approve);
    assert_eq!(thresholds.classify(SCALE), Outcome::Escalate);
    let score = RiskScore::new(750_000, "v1", &RuleResult::new()).unwrap();
    let decision = decide(score, &thresholds);
    assert_eq!(decision.outcome(), Outcome::Escalate);
    assert_eq!(decision.score().value(), 750_000);
    assert_eq!(decision.thresholds(), thresholds);
    assert_eq!(decision.duplicate().outcome(), Outcome::Escalate);
}

#[test]
fn equal_thresholds_leave_no_room_to_hold() {
    let thresholds = Thresholds::new(500_000, 500_000).unwrap();
    assert_eq!(thresholds.classify(499_999), Outcome::Approve);
    assert_eq!(thresholds.classify(500_000), Outcome::Escalate);
    let zero = Thresholds::new(0, 0).unwrap();
    assert_eq!(zero.classify(0), Outcome::Escalate);
}

#[test]
fn thresholds_must_be_ordered_and_at_most_one() {
    assert!(Thresholds::new(300_000, 200_000).is_none());
    assert!(Thresholds::new(0, SCALE + 1).is_none());
    let t = Thresholds::new(0, SCALE).unwrap();
    assert_eq!((t.low(), t.high()), (0, SCALE));
    let standard = Thresholds::standard();
    assert_eq!((standard.low(), standard.high()), (250_000, 750_000));
}

#[test]
fn risk_score_never_exceeds_one() {
    assert!(RiskScore::new(SCALE + 1, "v1", &RuleResult::new()).is_none());
    let rules = triggered(&[(4, 10)]);
    let score = RiskScore::new(SCALE, "v7", &rules).unwrap();
    assert_eq!(score.value(), SCALE);
    assert_eq!(score.model_version(), "v7");
    assert_eq!(score.contributing().triggered, rules.triggered);
    let copy = score.duplicate();
    assert_eq!(copy.value(), SCALE);
    assert_eq!(copy.model_version(), "v7");
}

#[test]
fn decided_states_are_final() {
    let thresholds = Thresholds::standard();
    assert!(!TxState::Scored.is_terminal());
    assert_eq!(TxState::Scored.advance(100_000, &thresholds), TxState::Approved);
    assert_eq!(TxState::Scored.advance(250_000, &thresholds), TxState::Held);
    assert_eq!(TxState::Scored.advance(750_000, &thresholds), TxState::Escalated);
    for state in [TxState::Approved, TxState::Held, TxState::Escalated] {
        assert!(state.is_terminal());
        for value in [0, 250_000, 750_000, SCALE] {
            assert_eq!(state.advance(value, &thresholds), state);
        }
    }
}

#[test]
fn quiet_transaction_is_approved() {
    let mut engine = ComplianceEngine::new();
    assert!(engine.add_rule(sanctions_rule(1, 0, &["mallory"])));
    assert!(engine.add_rule(Rule { id: 2, weight: 0, kind: RuleKind::LargeTransfer { limit: 100_001 } }));
    assert!(engine.add_rule(Rule { id: 3, weight: 0, kind: RuleKind::Velocity { max_recent: 10 } }));
    let analyzer = RiskAnalyzer::builder().with_ml_model("v1").with_engine(engine).build().unwrap();
    let mut ledger = AuditLedger::new();
    let found = analyzer
        .analyze_transaction(&simple_tx(), &history(vec![]), None, 1_700_000_100, &mut ledger)
        .unwrap();
    assert_eq!(found.decision.score().value(), 0);
    assert_eq!(found.decision.outcome(), Outcome::Approve);
    assert_eq!(found.decision.score().model_version(), "v1");
    assert!(found.decision.score().contributing().triggered.is_empty());
    assert_eq!(found.sequence, 0);
    assert_eq!(ledger.len(), 1);
}

#[test]
fn sanctioned_counterparty_is_escalated_and_recorded() {
    let mut engine = ComplianceEngine::new();
    assert!(engine.add_rule(sanctions_rule(77, 1_000_000, &["mallory", "bob"])));
    let analyzer = RiskAnalyzer::builder().with_threshold(750_000).with_engine(engine).build().unwrap();
    let mut ledger = AuditLedger::new();
    let found = analyzer
        .analyze_transaction(&simple_tx(), &history(vec![]), None, 42, &mut ledger)
        .unwrap();
    assert!(found.decision.score().value() >= 750_000);
    assert_eq!(found.decision.score().value(), SCALE);
    assert_eq!(found.decision.outcome(), Outcome::Escalate);
    let entry = ledger.get(found.sequence).unwrap();
    assert_eq!(entry.rule_result().triggered, vec![TriggeredRule { id: 77, weight: 1_000_000 }]);
    assert!(entry.rule_result().contains(77));
    assert_eq!(entry.decision().outcome(), Outcome::Escalate);
    assert_eq!(entry.tx_id(), "tx-simple");
    assert_eq!(entry.recorded_at(), 42);
}

#[test]
fn every_decision_has_exactly_one_entry_under_the_next_number() {
    let analyzer = RiskAnalyzer::new();
    let mut ledger = AuditLedger::new();
    let snapshot = busy_history();
    let ids = ["tx-a", "tx-b", "tx-a", "tx-c"];
    for (i, id) in ids.iter().enumerate() {
        let expected = ledger.next_sequence();
        assert_eq!(expected, i as u64);
        let tx = record(id, vec![input("alice", 5)], vec![output("bob", 5)], 0);
        let found = analyzer.analyze_transaction(&tx, &snapshot, None, 100 + i as u64, &mut ledger).unwrap();
        assert_eq!(found.sequence, expected);
        assert_eq!(ledger.len(), i + 1);
        let entry = ledger.get(found.sequence).unwrap();
        assert_eq!(entry.sequence(), expected);
        assert_eq!(entry.tx_id(), *id);
        assert_eq!(entry.recorded_at(), 100 + i as u64);
        assert_eq!(entry.decision().outcome(), found.decision.outcome());
        assert_eq!(entry.score().value(), found.decision.score().value());
    }
    assert_eq!(ledger.find_by_transaction("tx-a"), vec![0, 2]);
    assert_eq!(ledger.find_by_transaction("tx-c"), vec![3]);
    assert!(ledger.find_by_transaction("tx-z").is_empty());
}

#[test]
fn failed_run_leaves_the_ledger_alone() {
    let mut ledger = AuditLedger::new();
    let analyzer = RiskAnalyzer::new();
    let missing = HistorySnapshot { risk_table: None };
    let result = analyzer.analyze_transaction(&simple_tx(), &missing, None, 1, &mut ledger);
    assert!(matches!(result, Err(Error::InsufficientData)));
    assert_eq!(ledger.len(), 0);

    let mut engine = ComplianceEngine::new();
    assert!(engine.add_rule(Rule { id: 9, weight: 1, kind: RuleKind::Velocity { max_recent: 0 } }));
    let strict = RiskAnalyzer::builder().with_engine(engine).build().unwrap();
    let no_inputs = record("tx-n", vec![], vec![output("bob", 1)], 0);
    let result = strict.analyze_transaction(&no_inputs, &history(vec![]), None, 1, &mut ledger);
    assert!(matches!(result, Err(Error::RuleEvaluationError { rule_id: 9 })));
    assert_eq!(ledger.len(), 0);

    let remote = RiskAnalyzer::builder()
        .with_registry(registry_with("remote", ModelKind::External))
        .with_ml_model("remote")
        .build()
        .unwrap();
    let result = remote.analyze_transaction(&simple_tx(), &history(vec![]), None, 1, &mut ledger);
    assert!(matches!(result, Err(Error::ScoringTimeout)));
    assert_eq!(ledger.len(), 0);
    let found = remote.analyze_transaction(&simple_tx(), &history(vec![]), Some(800_000), 1, &mut ledger).unwrap();
    assert_eq!(found.decision.outcome(), Outcome::Escalate);
    assert_eq!(ledger.len(), 1);
}

#[test]
fn replay_reproduces_the_recorded_score() {
    let mut engine = ComplianceEngine::new();
    assert!(engine.add_rule(sanctions_rule(1, 300_000, &["dave"])));
    assert!(engine.add_rule(Rule { id: 2, weight: 200_000, kind: RuleKind::LargeTransfer { limit: 1 } }));
    let analyzer = RiskAnalyzer::builder()
        .with_registry(registry_with("v2", ModelKind::WeightedSum { risk_gain: 500_000 }))
        .with_ml_model("v2")
        .with_engine(engine)
        .build()
        .unwrap();
    let mut ledger = AuditLedger::new();
    let found = analyzer.analyze_transaction(&busy_tx(), &busy_history(), None, 5, &mut ledger).unwrap();
    assert_eq!(found.decision.score().value(), 600_000);
    assert_eq!(found.decision.outcome(), Outcome::Hold);
    let entry = ledger.get(0).unwrap();
    let again = analyzer.replay(entry, None).unwrap();
    assert_eq!(again.value(), entry.score().value());
    assert_eq!(again.model_version(), entry.score().model_version());
    assert_eq!(again.contributing().triggered, entry.rule_result().triggered);
    let by_hand = analyzer
        .registry()
        .score(&entry.features(), entry.rule_result(), "v2", None)
        .unwrap();
    assert_eq!(by_hand.value(), 600_000);
}

#[test]
fn append_refuses_an_entry_out_of_order() {
    let thresholds = Thresholds::standard();
    let entry = |sequence: u64| {
        let score = RiskScore::new(10, "v1", &RuleResult::new()).unwrap();
        AuditEntry::new(sequence, "tx", features_with_risk(0), decide(score, &thresholds), 7)
    };
    let mut ledger = AuditLedger::new();
    assert!(matches!(
        ledger.append(entry(1)),
        Err(Error::SequenceConflict { expected: 0, found: 1 })
    ));
    assert_eq!(ledger.len(), 0);
    assert_eq!(ledger.append(entry(0)).unwrap(), 0);
    assert_eq!(ledger.append(entry(1)).unwrap(), 1);
    assert!(matches!(
        ledger.append(entry(1)),
        Err(Error::SequenceConflict { expected: 2, found: 1 })
    ));
    assert!(matches!(
        ledger.append(entry(5)),
        Err(Error::SequenceConflict { expected: 2, found: 5 })
    ));
    assert_eq!(ledger.len(), 2);
    assert_eq!(ledger.next_sequence(), 2);
}

#[test]
fn read_range_is_ordered_and_clipped() {
    let analyzer = RiskAnalyzer::new();
    let mut ledger = AuditLedger::new();
    for i in 0..5u64 {
        let tx = record(&format!("tx-{}", i), vec![input("alice", 5)], vec![output("bob", 5)], 0);
        analyzer.analyze_transaction(&tx, &history(vec![]), None, i, &mut ledger).unwrap();
    }
    let sequences = |from: u64, to: u64| -> Vec<u64> {
        ledger.read_range(from, to).iter().map(|e| e.sequence()).collect()
    };
    assert_eq!(sequences(0, 5), vec![0, 1, 2, 3, 4]);
    assert_eq!(sequences(1, 3), vec![1, 2]);
    assert_eq!(sequences(3, 100), vec![3, 4]);
    assert_eq!(sequences(2, 2), Vec::<u64>::new());
    assert_eq!(sequences(4, 1), Vec::<u64>::new());
    assert_eq!(sequences(5, 9), Vec::<u64>::new());
    assert_eq!(sequences(u64::MAX, u64::MAX), Vec::<u64>::new());
    assert_eq!(ledger.read_range(1, 3)[0].tx_id(), "tx-1");
    assert!(ledger.get(5).is_none());
    assert_eq!(ledger.get(4).unwrap().tx_id(), "tx-4");
}

#[test]
fn cursor_walks_a_range_and_restarts() {
    let analyzer = RiskAnalyzer::new();
    let mut ledger = AuditLedger::new();
    for i in 0..3u64 {
        let tx = record(&format!("tx-{}", i), vec![input("alice", 5)], vec![output("bob", 5)], 0);
        analyzer.analyze_transaction(&tx, &history(vec![]), None, i, &mut ledger).unwrap();
    }
    let mut cursor = AuditCursor::new(1, 10);
    assert_eq!(cursor.read(&ledger).unwrap().sequence(), 1);
    assert_eq!(cursor.read(&ledger).unwrap().sequence(), 2);
    assert!(cursor.read(&ledger).is_none());
    assert_eq!(cursor.next, 3);
    let tx = record("tx-3", vec![input("alice", 5)], vec![output("bob", 5)], 0);
    analyzer.analyze_transaction(&tx, &history(vec![]), None, 3, &mut ledger).unwrap();
    assert_eq!(cursor.read(&ledger).unwrap().sequence(), 3);
    cursor.restart();
    assert_eq!(cursor, AuditCursor { start: 1, next: 1, end: 10 });
    assert_eq!(cursor.read(&ledger).unwrap().tx_id(), "tx-1");
    let mut short = AuditCursor::new(0, 1);
    assert!(short.read(&ledger).is_some());
    assert!(short.read(&ledger).is_none());
    assert_eq!(short.next, 1);
}

#[test]
fn monitor_lets_one_run_per_transaction_through() {
    let mut monitor = TransactionMonitor::new();
    assert!(!monitor.is_in_flight("tx-a"));
    assert!(monitor.begin("tx-a"));
    assert!(!monitor.begin("tx-a"));
    assert!(monitor.begin("tx-b"));
    assert!(monitor.is_in_flight("tx-a"));
    assert!(monitor.finish("tx-a"));
    assert!(!monitor.finish("tx-a"));
    assert!(!monitor.is_in_flight("tx-a"));
    assert!(monitor.is_in_flight("tx-b"));
    assert!(monitor.begin("tx-a"));
    assert!(monitor.finish("tx-b"));
    assert!(monitor.finish("tx-a"));
    assert!(!monitor.finish("tx-c"));
}

#[test]
fn alerts_go_out_for_escalations_only() {
    let thresholds = Thresholds::standard();
    let decision = |value: u64| decide(RiskScore::new(value, "v1", &RuleResult::new()).unwrap(), &thresholds);
    let mut alerts = AlertManager::new();
    assert!(!alerts.notify("tx-a", 0, &decision(10)));
    assert!(!alerts.notify("tx-b", 1, &decision(500_000)));
    assert_eq!(alerts.pending_count(), 0);
    assert!(alerts.notify("tx-c", 2, &decision(750_000)));
    assert!(alerts.notify("tx-d", 3, &decision(900_000)));
    assert_eq!(alerts.pending_count(), 2);
    let sent = alerts.take_pending();
    assert_eq!(alerts.pending_count(), 0);
    assert_eq!(sent.len(), 2);
    assert_eq!((sent[0].tx_id.as_str(), sent[0].sequence, sent[0].score), ("tx-c", 2, 750_000));
    assert_eq!((sent[1].tx_id.as_str(), sent[1].sequence, sent[1].score), ("tx-d", 3, 900_000));
    assert!(alerts.take_pending().is_empty());
}

#[test]
fn analyzer_starts_from_the_standard_configuration() {
    let analyzer = RiskAnalyzer::new();
    assert_eq!(analyzer.model_version(), "v1");
    assert_eq!(analyzer.thresholds(), Thresholds::standard());
    assert_eq!(analyzer.engine().rules().len(), 0);
    assert_eq!(analyzer.registry().resolve("v1"), Some(ModelKind::WeightedSum { risk_gain: 0 }));
    let built = RiskAnalyzer::builder().build().unwrap();
    assert_eq!(built.model_version(), "v1");
    assert_eq!(built.thresholds(), Thresholds::standard());
}

#[test]
fn builder_takes_any_model_name() {
    let analyzer = RiskAnalyzer::builder()
        .with_ml_model("test_model")
        .with_threshold(800_000)
        .build()
        .unwrap();
    assert_eq!(analyzer.model_version(), "test_model");
    assert_eq!((analyzer.thresholds().low(), analyzer.thresholds().high()), (250_000, 800_000));
    assert!(RiskAnalyzer::builder().with_ml_model("risk_model_v1").with_threshold(750_000).build().is_ok());
}

#[test]
fn unregistered_model_fails_at_scoring_only() {
    let analyzer = RiskAnalyzer::builder()
        .with_ml_model("test_model")
        .with_threshold(500_000)
        .build()
        .unwrap();
    let mut ledger = AuditLedger::new();
    let empty = record("tx-empty", vec![], vec![], 0);
    let result = analyzer.analyze_transaction(&empty, &history(vec![]), None, 1, &mut ledger);
    assert!(matches!(result, Err(Error::UnknownModelVersion)));
    assert_eq!(ledger.len(), 0);
    let known = RiskAnalyzer::builder().with_threshold(500_000).build().unwrap();
    let found = known.analyze_transaction(&empty, &history(vec![]), None, 1, &mut ledger).unwrap();
    assert_eq!(found.decision.outcome(), Outcome::Approve);
    assert_eq!(found.decision.score().value(), 0);
}

#[test]
fn builder_keeps_the_thresholds_in_order() {
    let lowered = RiskAnalyzer::builder().with_threshold(100_000).build().unwrap();
    assert_eq!((lowered.thresholds().low(), lowered.thresholds().high()), (100_000, 100_000));
    let raised = RiskAnalyzer::builder().with_low_threshold(900_000).build().unwrap();
    assert_eq!((raised.thresholds().low(), raised.thresholds().high()), (900_000, 900_000));
    let both = RiskAnalyzer::builder()
        .with_low_threshold(100_000)
        .with_threshold(400_000)
        .build()
        .unwrap();
    assert_eq!((both.thresholds().low(), both.thresholds().high()), (100_000, 400_000));
    let kept = RiskAnalyzer::builder().with_threshold(250_000).build().unwrap();
    assert_eq!((kept.thresholds().low(), kept.thresholds().high()), (250_000, 250_000));
    let zero = RiskAnalyzer::builder().with_threshold(0).build().unwrap();
    assert_eq!((zero.thresholds().low(), zero.thresholds().high()), (0, 0));
}

#[test]
fn builder_refuses_a_threshold_above_one() {
    match RiskAnalyzer::builder().with_threshold(SCALE + 1).build() {
        Err(e @ Error::RiskAnalysis(_)) => {
            assert_eq!(e.message(), "Risk analysis failed: thresholds must satisfy low <= high <= 1")
        }
        _ => panic!("a threshold above one was accepted"),
    }
    assert!(matches!(
        RiskAnalyzer::builder().with_low_threshold(SCALE + 1).build(),
        Err(Error::RiskAnalysis(_))
    ));
    assert!(RiskAnalyzer::builder().with_threshold(SCALE).build().is_ok());
}

#[test]
fn configuration_can_be_reloaded() {
    let mut analyzer = RiskAnalyzer::new();
    let mut engine = ComplianceEngine::new();
    assert!(engine.add_rule(Rule { id: 1, weight: 400_000, kind: RuleKind::LargeTransfer { limit: 1 } }));
    let mut ledger = AuditLedger::new();
    let snapshot = history(vec![]);
    let before = analyzer.analyze_transaction(&simple_tx(), &snapshot, None, 1, &mut ledger).unwrap();
    assert_eq!(before.decision.outcome(), Outcome::Approve);
    analyzer.set_engine(engine);
    let held = analyzer.analyze_transaction(&simple_tx(), &snapshot, None, 2, &mut ledger).unwrap();
    assert_eq!(held.decision.outcome(), Outcome::Hold);
    analyzer.set_thresholds(Thresholds::new(100_000, 400_000).unwrap());
    let escalated = analyzer.analyze_transaction(&simple_tx(), &snapshot, None, 3, &mut ledger).unwrap();
    assert_eq!(escalated.decision.outcome(), Outcome::Escalate);
    analyzer.set_model(registry_with("remote", ModelKind::External), "remote");
    let remote = analyzer.analyze_transaction(&simple_tx(), &snapshot, Some(5), 4, &mut ledger).unwrap();
    assert_eq!(remote.decision.outcome(), Outcome::Approve);
    assert_eq!(remote.decision.score().model_version(), "remote");
    assert_eq!(ledger.get(0).unwrap().decision().outcome(), Outcome::Approve);
    assert_eq!(ledger.get(1).unwrap().decision().outcome(), Outcome::Hold);
    assert_eq!(ledger.find_by_transaction("tx-simple"), vec![0, 1, 2, 3]);
}

#[test]
fn swapping_the_model_leaves_features_and_rules_alone() {
    let mut engine = ComplianceEngine::new();
    assert!(engine.add_rule(sanctions_rule(1, 300_000, &["dave"])));
    let mut analyzer = RiskAnalyzer::builder().with_engine(engine).build().unwrap();
    let mut ledger = AuditLedger::new();
    analyzer.analyze_transaction(&busy_tx(), &busy_history(), None, 1, &mut ledger).unwrap();
    analyzer.set_model(registry_with("max", ModelKind::MaxSeverity), "max");
    analyzer.analyze_transaction(&busy_tx(), &busy_history(), None, 2, &mut ledger).unwrap();
    let first = ledger.get(0).unwrap();
    let second = ledger.get(1).unwrap();
    assert_eq!(first.features(), second.features());
    assert_eq!(first.rule_result().triggered, second.rule_result().triggered);
    assert_eq!(second.score().model_version(), "max");
}

#[test]
fn engine_error_messages() {
    assert_eq!(Error::risk_analysis("r").message(), "Risk analysis failed: r");
    assert_eq!(Error::compliance("c").message(), "Compliance check failed: c");
    assert_eq!(Error::generic("g").message(), "Generic error: g");
    assert_eq!(Error::Monitoring("m".to_string()).message(), "Transaction monitoring error: m");
    assert_eq!(Error::MlModel("m".to_string()).message(), "ML model error: m");
    assert_eq!(Error::Analytics("a".to_string()).message(), "Analytics error: a");
    assert_eq!(Error::Reporting("r".to_string()).message(), "Reporting error: r");
    assert_eq!(Error::Database("d".to_string()).message(), "Database error: d");
    assert_eq!(Error::Bitcoin("b".to_string()).message(), "Bitcoin error: b");
    assert_eq!(Error::Http("h".to_string()).message(), "HTTP error: h");
    assert_eq!(Error::InsufficientData.message(), "Insufficient data");
    assert_eq!(Error::RuleEvaluationError { rule_id: 4 }.message(), "Rule evaluation failed");
    assert_eq!(Error::UnknownModelVersion.message(), "Unknown model version");
    assert_eq!(Error::ScoringTimeout.message(), "Scoring timed out");
    assert_eq!(Error::SequenceConflict { expected: 1, found: 2 }.message(), "Sequence conflict");
}

#[test]
fn only_a_sequence_conflict_is_final() {
    assert!(Error::InsufficientData.is_retryable());
    assert!(Error::RuleEvaluationError { rule_id: 1 }.is_retryable());
    assert!(Error::UnknownModelVersion.is_retryable());
    assert!(Error::ScoringTimeout.is_retryable());
    assert!(Error::generic("x").is_retryable());
    assert!(!Error::SequenceConflict { expected: 0, found: 1 }.is_retryable());
}

#[test]
fn analyze_and_notify_queues_alerts_for_escalations() {
    let mut engine = ComplianceEngine::new();
    assert!(engine.add_rule(sanctions_rule(77, 1_000_000, &["mallory"])));
    let analyzer = RiskAnalyzer::builder().with_engine(engine).build().unwrap();
    let mut ledger = AuditLedger::new();
    let mut alerts = AlertManager::new();
    let snapshot = history(vec![]);
    let quiet = analyzer
        .analyze_and_notify(&simple_tx(), &snapshot, None, 1, &mut ledger, &mut alerts)
        .unwrap();
    assert_eq!(quiet.decision.outcome(), Outcome::Approve);
    assert_eq!(alerts.pending_count(), 0);
    let tainted = record("tx-bad", vec![input("mallory", 9)], vec![output("bob", 9)], 0);
    let loud = analyzer
        .analyze_and_notify(&tainted, &snapshot, None, 2, &mut ledger, &mut alerts)
        .unwrap();
    assert_eq!(loud.decision.outcome(), Outcome::Escalate);
    assert_eq!(loud.sequence, 1);
    let missing = HistorySnapshot { risk_table: None };
    assert!(analyzer
        .analyze_and_notify(&tainted, &missing, None, 3, &mut ledger, &mut alerts)
        .is_err());
    assert_eq!(ledger.len(), 2);
    let sent = alerts.take_pending();
    assert_eq!(sent.len(), 1);
    assert_eq!((sent[0].tx_id.as_str(), sent[0].sequence, sent[0].score), ("tx-bad", 1, SCALE));
}

#[test]
fn implied_fee_is_what_the_inputs_bring_beyond_the_outputs() {
    let tx = busy_tx();
    assert_eq!(TransactionRecord::implied_fee(&tx.inputs, &tx.outputs), 600);
    assert_eq!(TransactionRecord::implied_fee(&tx.outputs, &tx.inputs), 0);
    assert_eq!(TransactionRecord::implied_fee(&vec![], &vec![]), 0);
    let rich = vec![input("a", u64::MAX), input("b", u64::MAX), input("c", 7)];
    let poor = vec![output("d", 6)];
    assert_eq!(TransactionRecord::implied_fee(&rich, &poor), u64::MAX);
    assert_eq!(TransactionRecord::implied_fee(&vec![input("a", u64::MAX), input("b", 5)], &vec![output("c", 6)]), u64::MAX - 1);
    assert_eq!(TransactionRecord::implied_fee(&poor, &rich), 0);
}

#[test]
fn rule_weights_can_be_reloaded_in_place() {
    let mut engine = ComplianceEngine::new();
    assert!(engine.add_rule(Rule { id: 1, weight: 100_000, kind: RuleKind::LargeTransfer { limit: 1 } }));
    let mut analyzer = RiskAnalyzer::builder().with_engine(engine).build().unwrap();
    let mut ledger = AuditLedger::new();
    let snapshot = history(vec![]);
    let mut last = 0;
    for weight in [100_000, 100_001, 250_000, 700_000, 1_000_000] {
        assert!(analyzer.set_rule_weight(1, weight));
        let found = analyzer.analyze_transaction(&simple_tx(), &snapshot, None, 1, &mut ledger).unwrap();
        assert_eq!(found.decision.score().value(), weight);
        assert!(found.decision.score().value() >= last);
        last = found.decision.score().value();
    }
    assert!(!analyzer.set_rule_weight(2, 5));
    assert!(!analyzer.set_rule_weight(1, SCALE + 1));
    assert_eq!(analyzer.engine().rules()[0].weight, SCALE);
}

#[test]
fn entries_carry_their_position_as_sequence_number() {
    let analyzer = RiskAnalyzer::new();
    let mut ledger = AuditLedger::new();
    for i in 0..4u64 {
        let tx = record(&format!("tx-{}", i % 2), vec![input("alice", 5)], vec![output("bob", 5)], 0);
        analyzer.analyze_transaction(&tx, &history(vec![]), None, i, &mut ledger).unwrap();
    }
    for i in 0..4u64 {
        assert_eq!(ledger.get(i).unwrap().sequence(), i);
    }
    for (k, entry) in ledger.read_range(1, 4).iter().enumerate() {
        assert_eq!(entry.sequence(), 1 + k as u64);
    }
    for sequence in ledger.find_by_transaction("tx-1") {
        assert_eq!(ledger.get(sequence).unwrap().tx_id(), "tx-1");
        assert_eq!(ledger.get(sequence).unwrap().sequence(), sequence);
    }
    assert_eq!(ledger.find_by_transaction("tx-1"), vec![1, 3]);
}
