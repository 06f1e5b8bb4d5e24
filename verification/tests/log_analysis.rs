use cybersec_ai_agent::api::LogEntry;
use cybersec_ai_agent::threat_detection::detect_threats;

#[test]
fn test_analyze_logs() {
    let logs = vec![LogEntry {
        message: "Malware detected".to_string(),
        timestamp: 0,
        source: "10.0.0.1".to_string(),
    }];

    let result = detect_threats(logs);

    assert_eq!(result, vec!["Threat found: Malware detected"]);
}

#[test]
fn detect_threats_skips_clean_messages() {
    let logs = vec![
        LogEntry {
            message: "routine heartbeat".to_string(),
            timestamp: 1,
            source: "10.0.0.1".to_string(),
        },
        LogEntry {
            message: "possible SEED PHRASE leak".to_string(),
            timestamp: 2,
            source: "10.0.0.2".to_string(),
        },
    ];

    let result = detect_threats(logs);

    assert_eq!(result, vec!["Threat found: possible SEED PHRASE leak"]);
}

#[test]
fn detect_threats_empty_batch() {
    let result = detect_threats(Vec::new());
    assert!(result.is_empty());
}
