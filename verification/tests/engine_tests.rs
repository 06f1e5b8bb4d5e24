use cybersec_ai_agent::api::LogEntry;
use cybersec_ai_agent::catalog::Severity;
use cybersec_ai_agent::catalog::analyze_threat_severity;
use cybersec_ai_agent::engine::Engine;
use cybersec_ai_agent::frequency::FrequencyTracker;
use cybersec_ai_agent::threshold_exceeded;

fn event(message: &str, source: &str) -> LogEntry {
    LogEntry {
        message: message.to_string(),
        timestamp: 0,
        source: source.to_string(),
    }
}

#[test]
fn scenario_sql_injection_is_not_in_catalog() {
    // "injection" alone is not a catalog phrase, so the event falls
    // through to the frequency check; a first occurrence is no threat.
    let mut engine = Engine::new();
    let results = engine.classify_batch(&vec![event("Detected SQL injection attempt", "10.0.0.5")]);
    assert_eq!(results.len(), 1);
    assert!(!results[0].is_threat);
    assert_eq!(results[0].category, "normal");
    assert_eq!(results[0].confidence, 95);
    assert_eq!(results[0].details, "No threat detected");
}

#[test]
fn scenario_private_key_is_critical_crypto_threat() {
    let mut engine = Engine::new();
    let results = engine.classify_batch(&vec![event("Leaked private key found in logs", "3.3.3.3")]);
    assert_eq!(results.len(), 1);
    assert!(results[0].is_threat);
    assert_eq!(results[0].category, "CryptoThreat");
    assert_eq!(results[0].severity, Severity::Critical);
    assert_eq!(results[0].confidence, 90);
    assert_eq!(
        results[0].details,
        "CryptoThreat: private key in Leaked private key found in logs"
    );
}

#[test]
fn scenario_eleventh_event_triggers_frequency_threat() {
    let mut engine = Engine::new();
    let mut events = Vec::new();
    for i in 0..11 {
        events.push(event(&format!("routine heartbeat {}", i), "1.1.1.1"));
    }
    let results = engine.classify_batch(&events);
    assert_eq!(results.len(), 11);
    for r in results.iter().take(10) {
        assert!(!r.is_threat);
        assert_eq!(r.category, "normal");
    }
    assert!(results[10].is_threat);
    assert_eq!(results[10].category, "unusual_frequency");
    assert_eq!(results[10].severity, Severity::Medium);
    assert_eq!(results[10].confidence, 60);
    assert_eq!(
        results[10].details,
        "unusual_frequency: repeated activity in 1.1.1.1"
    );
}

#[test]
fn observe_counts_each_call() {
    let mut tracker = FrequencyTracker::new();
    for expected in 1..=11u64 {
        let count = tracker.observe("1.1.1.1");
        assert_eq!(count, expected);
    }
    assert_eq!(tracker.current("1.1.1.1"), 11);
    assert_eq!(tracker.current("2.2.2.2"), 0);
    assert!(tracker.threshold_exceeded(11));
    assert!(!tracker.threshold_exceeded(10));
    assert!(threshold_exceeded(11));
    assert!(!threshold_exceeded(10));
}

#[test]
fn observe_tracks_sources_independently() {
    let mut tracker = FrequencyTracker::new();
    for _ in 0..5 {
        tracker.observe("a");
    }
    for _ in 0..3 {
        tracker.observe("b");
    }
    assert_eq!(tracker.current("a"), 5);
    assert_eq!(tracker.current("b"), 3);
    tracker.clear();
    assert_eq!(tracker.current("a"), 0);
    assert_eq!(tracker.current("b"), 0);
}

#[test]
fn summarize_is_idempotent() {
    let mut engine = Engine::new();
    engine.classify_batch(&vec![
        event("malware beacon seen", "9.9.9.9"),
        event("Leaked private key found in logs", "3.3.3.3"),
    ]);
    let first = engine.summarize();
    let second = engine.summarize();
    assert_eq!(first, second);
    assert_eq!(first.len(), 2);
}

#[test]
fn summarize_counts_repeated_descriptions() {
    let mut engine = Engine::new();
    engine.classify_batch(&vec![
        event("malware beacon seen", "9.9.9.9"),
        event("malware beacon seen", "9.9.9.8"),
    ]);
    let summary = engine.summarize();
    assert_eq!(summary.len(), 1);
    assert_eq!(summary[0].0, "Malware: malware in malware beacon seen");
    assert_eq!(summary[0].1, 2);
}

#[test]
fn non_threats_are_not_aggregated() {
    let mut engine = Engine::new();
    engine.classify_batch(&vec![event("routine heartbeat", "1.2.3.4")]);
    assert!(engine.summarize().is_empty());
}

#[test]
fn reset_clears_frequency_and_aggregation_together() {
    let mut engine = Engine::new();
    let mut events = Vec::new();
    for i in 0..11 {
        events.push(event(&format!("routine heartbeat {}", i), "1.1.1.1"));
    }
    engine.classify_batch(&events);
    assert!(!engine.summarize().is_empty());
    engine.reset();
    assert!(engine.summarize().is_empty());
    // The frequency baseline restarts too: the next event is no threat.
    let results = engine.classify_batch(&vec![event("routine heartbeat", "1.1.1.1")]);
    assert!(!results[0].is_threat);
}

#[test]
fn uppercase_critical_phrase_scores_critical() {
    // Case-insensitive matching: the phrase severity does not depend
    // on the letter case of the message.
    let mut engine = Engine::new();
    let results = engine.classify_batch(&vec![event("USER LOST SEED PHRASE YESTERDAY", "7.7.7.7")]);
    assert!(results[0].is_threat);
    assert_eq!(results[0].category, "CryptoThreat");
    assert_eq!(results[0].severity, Severity::Critical);
}

#[test]
fn malware_keyword_takes_priority_over_later_categories() {
    // First category in priority order wins, even when a later
    // category's phrase also occurs; the malware phrase holds no
    // severity marker, so the scorer table rates it Medium.
    let mut engine = Engine::new();
    let results = engine.classify_batch(&vec![event("malware stole the private key", "5.5.5.5")]);
    assert_eq!(results[0].category, "Malware");
    assert_eq!(results[0].severity, Severity::Medium);
    assert_eq!(results[0].confidence, 85);
}

#[test]
fn severity_table_exact_values() {
    assert_eq!(analyze_threat_severity("seed phrase"), "CRITICAL");
    assert_eq!(analyze_threat_severity("private key"), "CRITICAL");
    assert_eq!(analyze_threat_severity("principal id theft"), "CRITICAL");
    assert_eq!(analyze_threat_severity("canister exploit"), "HIGH");
    assert_eq!(analyze_threat_severity("cycle drain"), "HIGH");
    assert_eq!(analyze_threat_severity("unauthorized delegation"), "HIGH");
    assert_eq!(analyze_threat_severity("replay attack"), "MEDIUM");
    assert_eq!(analyze_threat_severity("session timeout"), "MEDIUM");
    // Substring level, not whole tokens, and surrounding text does not
    // weaken the rating.
    assert_eq!(analyze_threat_severity("a stolen seed phrase in a log"), "CRITICAL");
}

#[test]
fn platform_vulnerability_category_and_confidence() {
    let mut engine = Engine::new();
    let results = engine.classify_batch(&vec![event("vetkd exploit attempt observed", "6.6.6.6")]);
    assert!(results[0].is_threat);
    assert_eq!(results[0].category, "PlatformVulnerability");
    assert_eq!(results[0].confidence, 80);
}

#[test]
fn security_log_round_trip() {
    let mut engine = Engine::new();
    engine.log_security_event(
        "intrusion".to_string(),
        "port probe".to_string(),
        "HIGH".to_string(),
        42,
    );
    let logs = engine.get_security_logs();
    assert_eq!(logs.len(), 1);
    assert_eq!(logs[0].timestamp, 42);
    assert_eq!(logs[0].event_type, "intrusion");
    assert_eq!(logs[0].details, "port probe");
    assert_eq!(logs[0].severity, "HIGH");
    engine.clear_logs();
    assert!(engine.get_security_logs().is_empty());
}
