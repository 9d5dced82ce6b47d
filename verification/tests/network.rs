use azure_aitoolsconnect::config::Cloud;
use azure_aitoolsconnect::error::ExitCode;
use azure_aitoolsconnect::network::{
    check_dns, check_tls, format_diagnostics, format_diagnostics_json, get_endpoints_for_region,
    lookup_target, measure_latency, probe_url, run_diagnostics, selected_checks,
    NetworkDiagnostics, Probe,
};

#[test]
fn test_get_endpoints_global() {
    let endpoints = get_endpoints_for_region("eastus", Cloud::Global);
    assert!(endpoints.iter().any(|e| e.contains("eastus")));
    assert!(endpoints.iter().any(|e| e.contains("microsofttranslator")));
}

#[test]
fn test_get_endpoints_china() {
    let endpoints = get_endpoints_for_region("chinaeast2", Cloud::China);
    assert!(endpoints.iter().any(|e| e.contains("azure.cn")));
}

#[test]
fn diagnostics_targets() {
    assert_eq!(
        get_endpoints_for_region("westus", Cloud::Global),
        vec![
            "westus.api.cognitive.microsoft.com",
            "api.cognitive.microsofttranslator.com",
            "westus.cognitiveservices.azure.com"
        ]
    );
    assert_eq!(
        get_endpoints_for_region("chinanorth", Cloud::China),
        vec![
            "chinanorth.api.cognitive.azure.cn",
            "api.translator.azure.cn",
            "chinanorth.cognitiveservices.azure.cn"
        ]
    );
    assert_eq!(run_diagnostics("westus", Cloud::Global, Some("my.host")), vec!["my.host"]);
    assert_eq!(run_diagnostics("westus", Cloud::Global, None).len(), 3);
    assert_eq!(selected_checks(false, false, false), (true, true, true));
    assert_eq!(selected_checks(true, false, false), (true, false, false));
    assert_eq!(selected_checks(false, true, true), (false, true, true));
    assert_eq!(lookup_target("h.example"), "h.example:443");
    assert_eq!(probe_url("h.example"), "https://h.example");
}

fn sample() -> NetworkDiagnostics {
    NetworkDiagnostics {
        dns: vec![
            check_dns("a.example", Ok(vec!["10.0.0.1".to_string(), "10.0.0.2".to_string()]), 12),
            check_dns("b.example", Err("no such host".to_string()), 3),
            check_dns("c.example", Ok(vec![]), 4),
        ],
        tls: vec![
            check_tls("a.example", Probe::Reached, 40),
            check_tls("b.example", Probe::ConnectFailed("refused".to_string()), 5),
            check_tls("c.example", Probe::TimedOut("deadline".to_string()), 10000),
            check_tls("d.example", Probe::Failed("odd".to_string()), 1),
            check_tls("e.example", Probe::ClientFailed("tls backend".to_string()), 0),
        ],
        latency: vec![
            measure_latency("a.example", Probe::Reached, 33),
            measure_latency("b.example", Probe::Failed("reset".to_string()), 7),
            measure_latency("c.example", Probe::ClientFailed("x".to_string()), 9),
        ],
    }
}

#[test]
fn diagnostics_results() {
    let d = sample();
    assert!(d.dns[0].resolved);
    assert!(!d.dns[1].resolved);
    assert_eq!(d.dns[1].error.as_deref(), Some("no such host"));
    assert!(!d.dns[2].resolved);
    assert_eq!(d.dns[2].error, None);
    assert_eq!(d.tls[1].error.as_deref(), Some("Connection failed: refused"));
    assert_eq!(d.tls[2].error.as_deref(), Some("Connection timed out"));
    assert_eq!(d.tls[3].error.as_deref(), Some("odd"));
    assert_eq!(d.tls[4].error.as_deref(), Some("Failed to create client: tls backend"));
    assert_eq!(d.latency[2].latency_ms, 0);
    assert_eq!(d.latency[2].error.as_deref(), Some("Failed to create client: x"));
    assert_eq!(d.latency[1].latency_ms, 7);
    assert_eq!(d.exit_code(), ExitCode::NetworkFailure);
    let fine = NetworkDiagnostics {
        dns: vec![check_dns("a", Ok(vec!["1.1.1.1".to_string()]), 1)],
        tls: vec![check_tls("a", Probe::Reached, 1)],
        latency: vec![],
    };
    assert_eq!(fine.exit_code(), ExitCode::Success);
    let empty = NetworkDiagnostics { dns: vec![], tls: vec![], latency: vec![] };
    assert_eq!(empty.exit_code(), ExitCode::Success);
}

#[test]
fn diagnostics_plain_text() {
    let text = format_diagnostics(&sample(), false);
    let expected = "\nNetwork Diagnostics\n==================\n\n\
DNS Resolution:\n\
\x20 [OK] a.example (12ms)\n\
\x20   10.0.0.1\n\
\x20   10.0.0.2\n\
\x20 [FAIL] b.example (3ms)\n\
\x20   Error: no such host\n\
\x20 [FAIL] c.example (4ms)\n\
\n\
TLS Handshake:\n\
\x20 [OK] a.example (40ms)\n\
\x20 [FAIL] b.example (5ms)\n\
\x20   Error: Connection failed: refused\n\
\x20 [FAIL] c.example (10000ms)\n\
\x20   Error: Connection timed out\n\
\x20 [FAIL] d.example (1ms)\n\
\x20   Error: odd\n\
\x20 [FAIL] e.example (0ms)\n\
\x20   Error: Failed to create client: tls backend\n\
\n\
Latency:\n\
\x20 [OK] a.example - 33ms\n\
\x20 [FAIL] b.example - 7ms\n\
\x20   Error: reset\n\
\x20 [FAIL] c.example - 0ms\n\
\x20   Error: Failed to create client: x\n";
    assert_eq!(text, expected);
    let empty = NetworkDiagnostics { dns: vec![], tls: vec![], latency: vec![] };
    assert_eq!(format_diagnostics(&empty, false), "\nNetwork Diagnostics\n==================\n\n");
}

#[test]
fn diagnostics_coloured_text_keeps_the_words() {
    let text = format_diagnostics(&sample(), true);
    assert!(text.contains("DNS Resolution:\n"));
    assert!(text.contains("a.example (12ms)\n"));
    assert!(text.contains("10.0.0.2"));
    assert!(text.contains("no such host"));
    assert!(!text.contains("[OK]"));
    assert!(!text.contains("Error: "));
    assert!(text.contains('\u{2713}'));
    assert!(text.contains('\u{2717}'));
}

#[test]
fn diagnostics_json_text() {
    let d = NetworkDiagnostics {
        dns: vec![
            check_dns("h", Ok(vec!["10.0.0.1".to_string(), "::1".to_string()]), 3),
            check_dns("g", Err("no such host".to_string()), 4),
        ],
        tls: vec![check_tls("h", Probe::Reached, 5)],
        latency: vec![measure_latency("h", Probe::TimedOut("slow".to_string()), 6)],
    };
    assert_eq!(
        format_diagnostics_json(&d).unwrap(),
        r#"{
  "dns": [
    {
      "hostname": "h",
      "resolved": true,
      "addresses": [
        "10.0.0.1",
        "::1"
      ],
      "duration_ms": 3,
      "error": null
    },
    {
      "hostname": "g",
      "resolved": false,
      "addresses": [],
      "duration_ms": 4,
      "error": "no such host"
    }
  ],
  "tls": [
    {
      "endpoint": "h",
      "success": true,
      "duration_ms": 5,
      "error": null
    }
  ],
  "latency": [
    {
      "endpoint": "h",
      "latency_ms": 6,
      "success": false,
      "error": "slow"
    }
  ]
}"#
    );
    let empty = NetworkDiagnostics { dns: vec![], tls: vec![], latency: vec![] };
    assert_eq!(
        format_diagnostics_json(&empty).unwrap(),
        "{\n  \"dns\": [],\n  \"tls\": [],\n  \"latency\": []\n}"
    );
    assert_eq!(empty.to_json().compact_text().unwrap(), r#"{"dns":[],"tls":[],"latency":[]}"#);
}
