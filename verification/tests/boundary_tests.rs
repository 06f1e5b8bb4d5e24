use cybersec_ai_agent::api::LogEntry;
use cybersec_ai_agent::api::RouteAction;
use cybersec_ai_agent::catalog::Category;
use cybersec_ai_agent::catalog::Severity;
use cybersec_ai_agent::matcher::match_message;
use cybersec_ai_agent::text::str_contains_ci;
use cybersec_ai_agent::api::ThreatInput;
use cybersec_ai_agent::api::route_request;
use cybersec_ai_agent::engine::Engine;
use cybersec_ai_agent::model::interpret_model_verdict;
use cybersec_ai_agent::model::model_prompt;
use cybersec_ai_agent::model::select_ambiguous;
use cybersec_ai_agent::net::ScanResult;
use cybersec_ai_agent::net::analyze_canister_security;
use cybersec_ai_agent::net::check_vulnerabilities;
use cybersec_ai_agent::net::probe_url;
use cybersec_ai_agent::net::reputation_query_url;
use cybersec_ai_agent::net::reputation_report;
use cybersec_ai_agent::net::summarize_scan;
use cybersec_ai_agent::wallet::WalletStore;

#[test]
fn case_insensitive_containment() {
    assert!(str_contains_ci("Leaked PRIVATE Key found", "private key"));
    assert!(str_contains_ci("seed phrase", "seed phrase"));
    assert!(!str_contains_ci("private-key", "private key"));
    assert!(!str_contains_ci("", "malware"));
    assert!(str_contains_ci("anything", ""));
}

#[test]
fn matcher_returns_first_rule_in_priority_order() {
    let rule = match_message("Cycle Drain imminent").unwrap();
    assert_eq!(rule.phrase, "cycle drain");
    assert_eq!(rule.category, Category::CryptoThreat);
    assert_eq!(rule.severity_hint, Severity::High);

    assert!(match_message("no issues here").is_none());
    assert!(match_message("").is_none());
}

#[test]
fn threat_endpoint_query_requires_upgrade() {
    let r = route_request("/api/threat_endpoint?canisterId=abc", "POST", false);
    assert_eq!(r, RouteAction::UpgradeRequired);
}

#[test]
fn threat_endpoint_update_classifies() {
    let r = route_request("/api/threat_endpoint", "POST", true);
    assert_eq!(r, RouteAction::ClassifyLogs);
}

#[test]
fn wallet_endpoint_routes() {
    let r = route_request("/wallet_authenticate", "POST", false);
    assert_eq!(r, RouteAction::WalletAuthenticate);
}

#[test]
fn unknown_path_is_not_found() {
    assert_eq!(route_request("/health", "POST", true), RouteAction::NotFound);
    assert_eq!(route_request("/api/threat_endpoint", "GET", true), RouteAction::NotFound);
    // The endpoint name hidden behind the query separator does not route.
    assert_eq!(route_request("/other?x=/threat_endpoint", "POST", true), RouteAction::NotFound);
}

#[test]
fn threat_input_completes_to_log_entry() {
    let input = ThreatInput {
        source: "8.8.8.8".to_string(),
        message: "cycle drain underway".to_string(),
    };
    let entry = input.into_log_entry(7);
    assert_eq!(entry.message, "cycle drain underway");
    assert_eq!(entry.source, "8.8.8.8");
    assert_eq!(entry.timestamp, 7);
}

#[test]
fn wallet_verification_outcomes() {
    let mut store = WalletStore::new();
    let ok = store.verify_user("aaaaa-aa", Ok(()));
    assert!(ok.is_ok());
    assert_eq!(
        store.get_wallet_info("aaaaa-aa"),
        "Wallet information for aaaaa-aa: Verified"
    );
    assert_eq!(
        store.get_wallet_info("bbbbb-bb"),
        "No information found for wallet: bbbbb-bb"
    );

    let err = store
        .verify_user("ccccc-cc", Err((3, "no route to canister".to_string())))
        .unwrap_err();
    assert_eq!(err.code(), 3);
    assert_eq!(err.describe(), "Call error (code: 3): no route to canister");
    assert_eq!(
        store.get_wallet_info("ccccc-cc"),
        "No information found for wallet: ccccc-cc"
    );
}

#[test]
fn probe_and_reputation_urls() {
    assert_eq!(probe_url("1.2.3.4", 8080), "http://1.2.3.4:8080/");
    assert_eq!(probe_url("h", 65535), "http://h:65535/");
    assert_eq!(probe_url("h", 0), "http://h:0/");
    assert_eq!(
        reputation_query_url("9.9.9.9"),
        "https://api.abuseipdb.com/api/v2/check?ipAddress=9.9.9.9"
    );
}

#[test]
fn reputation_report_outcomes() {
    assert_eq!(
        reputation_report(Ok("clean".to_string())),
        "clean"
    );
    assert_eq!(
        reputation_report(Err((2, "SysTransient".to_string()))),
        "Error fetching threat data: 2 - SysTransient"
    );
}

#[test]
fn scan_summary_lists_open_ports() {
    let probes = vec![
        ScanResult::from_probe(80, true),
        ScanResult::from_probe(81, false),
        ScanResult::from_probe(443, true),
    ];
    let scan = summarize_scan("10.0.0.7".to_string(), &probes);
    assert_eq!(scan.target, "10.0.0.7");
    assert_eq!(scan.open_ports, vec![80, 443]);
    assert_eq!(
        scan.services,
        vec![
            "Unknown service on port 80",
            "Unknown service on port 443"
        ]
    );
}

#[test]
fn vulnerability_table_entry() {
    let v = check_vulnerabilities("nginx", "1.0");
    assert_eq!(v.len(), 1);
    assert_eq!(v[0].cve_id, "CVE-2023-1234");
    assert_eq!(v[0].severity, "High");
    assert_eq!(v[0].description, "Buffer overflow in nginx version 1.0");
    assert_eq!(v[0].remediation, "Update to latest version");
}

#[test]
fn canister_check_reports_static_issues() {
    let c = analyze_canister_security("ryjl3-tyaaa-aaaaa-aaaba-cai".to_string());
    assert_eq!(c.canister_id, "ryjl3-tyaaa-aaaaa-aaaba-cai");
    assert_eq!(c.issues, vec!["Unrestricted update calls", "No caller validation"]);
    assert_eq!(c.risk_level, "Medium");
}

#[test]
fn model_prompt_is_exact() {
    let log = LogEntry {
        message: "odd login".to_string(),
        timestamp: 0,
        source: "4.4.4.4".to_string(),
    };
    assert_eq!(
        model_prompt(&log),
        "Analyze this log entry for security threats: odd login\nSource: 4.4.4.4"
    );
}

#[test]
fn model_verdict_is_read_literally() {
    let r = interpret_model_verdict("threat: injection pattern seen");
    assert!(r.is_threat);
    assert_eq!(r.category, "sql_injection");
    assert_eq!(r.confidence, 85);
    assert_eq!(r.details, "threat: injection pattern seen");

    let r = interpret_model_verdict("ddos chatter");
    assert!(!r.is_threat);
    assert_eq!(r.category, "ddos_attack");

    let r = interpret_model_verdict("nothing conclusive");
    assert!(!r.is_threat);
    assert_eq!(r.category, "unknown_threat");
}

#[test]
fn ambiguous_band_selects_frequency_threats_only() {
    let mut engine = Engine::new();
    let mut events = Vec::new();
    for i in 0..11 {
        events.push(LogEntry {
            message: format!("routine heartbeat {}", i),
            timestamp: i,
            source: "1.1.1.1".to_string(),
        });
    }
    // The eleventh classification has confidence 60: inside the
    // ambiguous band. The non-threats (95) and pattern hits are not.
    events.push(LogEntry {
        message: "Leaked private key found in logs".to_string(),
        timestamp: 12,
        source: "3.3.3.3".to_string(),
    });
    let results = engine.classify_batch(&events);
    let picked = select_ambiguous(&events, &results);
    assert_eq!(picked.len(), 1);
    assert_eq!(picked[0].message, "routine heartbeat 10");
    assert_eq!(picked[0].source, "1.1.1.1");
}
