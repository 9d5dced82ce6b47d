use azure_aitoolsconnect::config::OutputFormat;
use azure_aitoolsconnect::output::{
    get_formatter, Formatter, HumanFormatter, JsonFormatter, JunitFormatter, OutputFormatter,
    TestReport, TestSummary,
};
use azure_aitoolsconnect::services::{ServiceTestResults, TestResult};
use azure_aitoolsconnect::time::Timestamp;

fn create_test_report() -> TestReport {
    TestReport {
        timestamp: Timestamp::new(1_700_000_000, 0),
        summary: TestSummary { total: 3, passed: 2, failed: 1, skipped: 0 },
        total_duration_ms: 1500,
        services: vec![ServiceTestResults {
            service_name: "Speech".to_string(),
            endpoint: "https://eastus.api.cognitive.microsoft.com".to_string(),
            results: vec![
                TestResult::success("voices_list", "Get Voices List", 500),
                TestResult::success("token_exchange", "Token Exchange", 300),
                TestResult::failure("tts", "Text-to-Speech", 700, "Auth failed".to_string()),
            ],
            total_duration_ms: 1500,
        }],
    }
}

#[test]
fn test_human_formatter() {
    let report = create_test_report();
    let formatter = HumanFormatter::new(false);
    let output = formatter.format(&report);

    assert!(output.contains("Azure AI Services"));
    assert!(output.contains("Speech"));
    assert!(output.contains("Total: 3"));
}

#[test]
fn test_junit_formatter() {
    let report = create_test_report();
    let formatter = JunitFormatter::new();
    let output = formatter.format(&report);

    assert!(output.contains("<?xml"));
    assert!(output.contains("<testsuites"));
    assert!(output.contains("<testsuite name=\"Speech\""));
}

fn mixed_services() -> Vec<ServiceTestResults> {
    vec![
        ServiceTestResults {
            service_name: "Speech".to_string(),
            endpoint: "https://e".to_string(),
            results: vec![
                TestResult::success("a", "A", 10).with_details("fine".to_string()),
                TestResult::failure("b", "B & <C>", 20, "HTTP 401: \"denied\"".to_string())
                    .with_details("it's closed".to_string())
                    .with_http_status(401),
                TestResult::skipped("c", "C", "Requires audio input".to_string()),
            ],
            total_duration_ms: 30,
        },
        ServiceTestResults {
            service_name: "Vision".to_string(),
            endpoint: "https://v".to_string(),
            results: vec![TestResult::success("d", "D", 1234)],
            total_duration_ms: 1234,
        },
    ]
}

#[test]
fn report_counts() {
    let report = TestReport::new(mixed_services(), Timestamp::new(5, 6));
    assert_eq!(report.summary, TestSummary { total: 4, passed: 2, failed: 1, skipped: 1 });
    assert_eq!(report.total_duration_ms, 1264);
    assert_eq!(report.timestamp, Timestamp::new(5, 6));
    assert!(!report.all_passed());
    assert_eq!(report.services.len(), 2);

    let empty = TestReport::new(vec![], Timestamp::new(0, 0));
    assert_eq!(empty.summary, TestSummary { total: 0, passed: 0, failed: 0, skipped: 0 });
    assert!(empty.all_passed());

    // A run in which scenarios were only skipped has not failed.
    let skipped_only = TestReport::new(
        vec![ServiceTestResults {
            service_name: "S".to_string(),
            endpoint: "e".to_string(),
            results: vec![TestResult::skipped("x", "X", "no input".to_string())],
            total_duration_ms: u64::MAX,
        }],
        Timestamp::new(0, 0),
    );
    assert!(skipped_only.all_passed());
    assert_eq!(skipped_only.summary.skipped, 1);

    // Durations that do not fit stand at the largest number.
    let mut two = mixed_services();
    two[0].total_duration_ms = u64::MAX;
    assert_eq!(TestReport::new(two, Timestamp::new(0, 0)).total_duration_ms, u64::MAX);
}

#[test]
fn human_plain_text() {
    let report = TestReport::new(mixed_services(), Timestamp::new(0, 0));
    let text = HumanFormatter::new(false).format(&report);
    let expected = "\nAzure AI Services Connectivity Test Results\n\
==================================================\n\n\
Speech (https://e)\n\
\x20 [PASS] A (10ms)\n\
\x20   fine\n\
\x20 [FAIL] B & <C> (20ms)\n\
\x20   it's closed\n\
\x20   -> HTTP 401: \"denied\"\n\
\x20 [SKIP] C (0ms)\n\
\x20   -> Skipped: Requires audio input\n\
\n\
Vision (https://v)\n\
\x20 [PASS] D (1234ms)\n\
\n\
Summary\n\
\x20 Total: 4 | Passed: 2 | Failed: 1 | Skipped: 1\n\
\x20 Duration: 1264ms\n";
    assert_eq!(text, expected);
}

#[test]
fn human_coloured_text_keeps_the_words() {
    let report = TestReport::new(mixed_services(), Timestamp::new(0, 0));
    let formatter = HumanFormatter::new(true);
    let text = formatter.format(&report);
    assert!(text.contains("Speech"));
    assert!(text.contains("Passed: 2"));
    assert!(text.contains("\u{2713}"));
    assert!(text.contains("\u{2717}"));
    assert!(text.contains("\u{25CB}"));
    assert!(text.contains("\u{2192}"));
    assert!(!text.contains("[PASS]"));
    assert!(text.ends_with("  Duration: 1264ms\n"));
    let spans = formatter.layout(&report);
    let joined: String = spans.iter().map(|s| s.text.as_str()).collect();
    assert!(joined.contains("  \u{2713} A (10ms)\n"));
}

#[test]
fn human_marks() {
    let plain = HumanFormatter::new(false);
    assert_eq!(plain.check_mark(), "[PASS]");
    assert_eq!(plain.cross_mark(), "[FAIL]");
    assert_eq!(plain.skip_mark(), "[SKIP]");
    let coloured = HumanFormatter::new(true);
    assert_eq!(coloured.check_mark(), "\u{2713}");
    assert_eq!(coloured.cross_mark(), "\u{2717}");
    assert_eq!(coloured.skip_mark(), "\u{25CB}");
}

#[test]
fn junit_text() {
    let report = TestReport::new(mixed_services(), Timestamp::new(0, 0));
    let text = JunitFormatter::default().format(&report);
    let expected = "<?xml version=\"1.0\" encoding=\"UTF-8\"?>\n\
<testsuites tests=\"4\" failures=\"1\" errors=\"0\" time=\"1.264\">\n\
\x20 <testsuite name=\"Speech\" tests=\"3\" failures=\"2\" errors=\"0\" time=\"0.030\">\n\
\x20   <testcase name=\"A\" classname=\"Speech\" time=\"0.010\" />\n\
\x20   <testcase name=\"B &amp; &lt;C&gt;\" classname=\"Speech\" time=\"0.020\">\n\
\x20     <failure message=\"HTTP 401: &quot;denied&quot;\" type=\"AssertionError\">\n\
\x20       it&apos;s closed\n\
\x20     </failure>\n\
\x20   </testcase>\n\
\x20   <testcase name=\"C\" classname=\"Speech\" time=\"0.000\">\n\
\x20     <skipped message=\"Skipped: Requires audio input\" />\n\
\x20   </testcase>\n\
\x20 </testsuite>\n\
\x20 <testsuite name=\"Vision\" tests=\"1\" failures=\"0\" errors=\"0\" time=\"1.234\">\n\
\x20   <testcase name=\"D\" classname=\"Vision\" time=\"1.234\" />\n\
\x20 </testsuite>\n\
</testsuites>\n";
    assert_eq!(text, expected);
}

#[test]
fn junit_failure_without_error_text() {
    let report = TestReport::new(
        vec![ServiceTestResults {
            service_name: "S".to_string(),
            endpoint: "e".to_string(),
            results: vec![TestResult {
                scenario_id: "x".to_string(),
                scenario_name: "X".to_string(),
                success: false,
                duration_ms: 59_999,
                error: None,
                details: None,
                http_status: None,
            }],
            total_duration_ms: 60_001,
        }],
        Timestamp::new(0, 0),
    );
    let text = JunitFormatter::new().format(&report);
    assert!(text.contains("time=\"60.001\""));
    assert!(text.contains("time=\"59.999\""));
    assert!(text.contains("<failure message=\"Test failed\" type=\"AssertionError\">\n      </failure>\n"));
}

#[test]
fn junit_times_match_three_decimal_printing() {
    for ms in [0u64, 1, 9, 10, 99, 100, 999, 1000, 1001, 12_345, 1_000_000, 4_000_000_000_123] {
        let report = TestReport {
            timestamp: Timestamp::new(0, 0),
            summary: TestSummary { total: 0, passed: 0, failed: 0, skipped: 0 },
            total_duration_ms: ms,
            services: vec![],
        };
        let text = JunitFormatter::new().format(&report);
        let expected = format!("time=\"{:.3}\"", ms as f64 / 1000.0);
        assert!(text.contains(&expected), "{} in {}", expected, text);
    }
}

#[test]
fn escape_xml_cases() {
    assert_eq!(JunitFormatter::escape_xml(""), "");
    assert_eq!(JunitFormatter::escape_xml("plain"), "plain");
    assert_eq!(
        JunitFormatter::escape_xml("a&b<c>d\"e'f"),
        "a&amp;b&lt;c&gt;d&quot;e&apos;f"
    );
    assert_eq!(JunitFormatter::escape_xml("&amp;"), "&amp;amp;");
    assert_eq!(JunitFormatter::escape_xml("\u{e9}<"), "\u{e9}&lt;");
}

#[test]
fn formatter_for_each_format() {
    assert!(matches!(
        get_formatter(OutputFormat::Human, true),
        Formatter::Human(f) if f.use_colors()
    ));
    assert!(matches!(
        get_formatter(OutputFormat::Human, false),
        Formatter::Human(f) if !f.use_colors()
    ));
    assert!(matches!(get_formatter(OutputFormat::Json, false), Formatter::Json(f) if f.pretty()));
    assert!(matches!(get_formatter(OutputFormat::Junit, true), Formatter::Junit(_)));
    assert!(!JsonFormatter::new(false).pretty());
}

#[test]
fn test_json_formatter() {
    let report = create_test_report();
    let formatter = JsonFormatter::new(true);
    let output = formatter.format(&report);

    let parsed: serde_json::Value = serde_json::from_str(&output).unwrap();
    assert_eq!(parsed["summary"]["total"], 3);
}

#[test]
fn json_text_of_a_report() {
    let report = TestReport {
        timestamp: Timestamp::new(1_700_000_000, 250_000_000),
        summary: TestSummary { total: 2, passed: 1, failed: 1, skipped: 0 },
        total_duration_ms: 30,
        services: vec![ServiceTestResults {
            service_name: "Speech".to_string(),
            endpoint: "https://e".to_string(),
            results: vec![
                TestResult::success("a", "A", 10).with_details("fine".to_string()),
                TestResult::failure("b", "B", 20, "HTTP 401: \"denied\"".to_string())
                    .with_http_status(401),
            ],
            total_duration_ms: 30,
        }],
    };
    let compact = JsonFormatter::new(false).format(&report);
    let expected = [
        r#"{"timestamp":"2023-11-14T22:13:20.250Z","#,
        r#""summary":{"total":2,"passed":1,"failed":1,"skipped":0},"#,
        r#""total_duration_ms":30,"#,
        r#""services":[{"service_name":"Speech","endpoint":"https://e","results":["#,
        r#"{"scenario_id":"a","scenario_name":"A","success":true,"duration_ms":10,"#,
        r#""error":null,"details":"fine","http_status":null},"#,
        r#"{"scenario_id":"b","scenario_name":"B","success":false,"duration_ms":20,"#,
        r#""error":"HTTP 401: \"denied\"","details":null,"http_status":401}"#,
        r#"],"total_duration_ms":30}]}"#,
    ]
    .join("");
    assert_eq!(compact, expected);
    let pretty = JsonFormatter::new(true).format(&report);
    assert!(pretty.starts_with("{\n  \"timestamp\": \"2023-11-14T22:13:20.250Z\",\n  \"summary\": {\n    \"total\": 2,"));
    let lean: String = pretty.split('\n').map(|line| line.trim_start()).collect();
    assert_eq!(lean.replace("\": ", "\":"), compact);

    let empty = TestReport::new(Vec::new(), Timestamp::new(0, 0));
    assert_eq!(
        JsonFormatter::new(false).format(&empty),
        r#"{"timestamp":"1970-01-01T00:00:00Z","summary":{"total":0,"passed":0,"failed":0,"skipped":0},"total_duration_ms":0,"services":[]}"#
    );
    let beyond = TestReport::new(Vec::new(), Timestamp::new(i64::MAX, 0));
    assert_eq!(
        JsonFormatter::new(true).format(&beyond),
        "{\"error\": \"the time of the report is beyond the range of the calendar\"}"
    );
    assert_eq!(JsonFormatter::error_text("x"), "{\"error\": \"x\"}");
    match get_formatter(OutputFormat::Json, true) {
        Formatter::Json(f) => assert_eq!(f.format(&empty), JsonFormatter::new(true).format(&empty)),
        other => panic!("unexpected: {:?}", other),
    }
}
