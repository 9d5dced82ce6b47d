use azure_aitoolsconnect::auth::Credentials;
use azure_aitoolsconnect::config::Cloud;
use azure_aitoolsconnect::services::document_intelligence::DocumentIntelligenceService;
use azure_aitoolsconnect::services::language::LanguageService;
use azure_aitoolsconnect::services::speech::{minimal_wav, SpeechService};
use azure_aitoolsconnect::services::translator::TranslatorService;
use azure_aitoolsconnect::services::vision::VisionService;
use azure_aitoolsconnect::services::{
    find_scenario, get_all_services, get_service, run_all_scenarios, scenario_result,
    unknown_scenario, AzureService, InputType, Outcome, ServiceKind, ServiceTestResults, Step,
    TestContext, TestInput, TestResult, TestScenario,
};

#[test]
fn test_minimal_wav_valid_header() {
    let wav = minimal_wav();
    // Verify RIFF header
    assert_eq!(&wav[0..4], b"RIFF");
    assert_eq!(&wav[8..12], b"WAVE");
    // Verify fmt chunk
    assert_eq!(&wav[12..16], b"fmt ");
    // Verify PCM format (1)
    assert_eq!(wav[20], 1);
    // Verify mono (1 channel)
    assert_eq!(wav[22], 1);
    // Verify 16kHz sample rate
    assert_eq!(u32::from_le_bytes([wav[24], wav[25], wav[26], wav[27]]), 16000);
    // Verify 16 bits per sample
    assert_eq!(u16::from_le_bytes([wav[34], wav[35]]), 16);
    // Verify data chunk
    assert_eq!(&wav[36..40], b"data");
    // Verify total size
    assert_eq!(wav.len(), 44 + 3200);
}

#[test]
fn minimal_wav_sizes_and_silence() {
    let wav = minimal_wav();
    assert_eq!(u32::from_le_bytes([wav[4], wav[5], wav[6], wav[7]]), 4 + 24 + 8 + 3200);
    assert_eq!(u32::from_le_bytes([wav[16], wav[17], wav[18], wav[19]]), 16);
    assert_eq!(u32::from_le_bytes([wav[28], wav[29], wav[30], wav[31]]), 32000);
    assert_eq!(u16::from_le_bytes([wav[32], wav[33]]), 2);
    assert_eq!(u32::from_le_bytes([wav[40], wav[41], wav[42], wav[43]]), 3200);
    assert!(wav[44..].iter().all(|b| *b == 0));
}

#[test]
fn service_names_and_endpoints() {
    assert_eq!(SpeechService::new().name(), "speech");
    assert_eq!(SpeechService::default().display_name(), "Speech");
    assert_eq!(TranslatorService::new().name(), "translator");
    assert_eq!(LanguageService::new().display_name(), "Language");
    assert_eq!(VisionService::new().name(), "vision");
    assert_eq!(DocumentIntelligenceService::new().name(), "document_intelligence");
    assert_eq!(DocumentIntelligenceService::new().display_name(), "Document Intelligence");

    let regional = "https://eastus.api.cognitive.microsoft.com";
    assert_eq!(SpeechService::new().get_endpoint("eastus", Cloud::Global, None), regional);
    assert_eq!(LanguageService::new().get_endpoint("eastus", Cloud::Global, None), regional);
    assert_eq!(VisionService::new().get_endpoint("eastus", Cloud::Global, None), regional);
    assert_eq!(
        DocumentIntelligenceService::new().get_endpoint("chinaeast2", Cloud::China, None),
        "https://chinaeast2.api.cognitive.azure.cn"
    );
    assert_eq!(
        SpeechService::new().get_endpoint("eastus", Cloud::Global, Some("https://c.example//")),
        "https://c.example"
    );
    assert_eq!(
        LanguageService::new().get_endpoint("eastus", Cloud::Global, Some("https://c.example/")),
        "https://c.example/"
    );
    assert_eq!(
        TranslatorService::new().get_endpoint("eastus", Cloud::Global, None),
        "https://api.cognitive.microsofttranslator.com"
    );
    assert_eq!(
        TranslatorService::new().get_endpoint("eastus", Cloud::China, None),
        "https://api.translator.azure.cn"
    );
    assert_eq!(
        TranslatorService::new().get_endpoint("eastus", Cloud::China, Some("https://c.example/")),
        "https://c.example/translator/text/v3.0"
    );
    assert_eq!(
        SpeechService::get_tts_endpoint("westus", Cloud::Global),
        "https://westus.tts.speech.microsoft.com"
    );
    assert_eq!(
        SpeechService::get_stt_endpoint("chinaeast2", Cloud::China),
        "https://chinaeast2.stt.speech.azure.cn"
    );
}

#[test]
fn service_scenarios() {
    let ids = |v: Vec<TestScenario>| v.iter().map(|s| s.id).collect::<Vec<_>>();
    assert_eq!(
        ids(SpeechService::new().list_scenarios()),
        vec!["endpoint_check", "voices_list", "token_exchange", "stt_short", "stt_rest", "tts"]
    );
    assert_eq!(
        ids(TranslatorService::new().list_scenarios()),
        vec!["endpoint_check", "languages", "detect", "translate"]
    );
    assert_eq!(
        ids(LanguageService::new().list_scenarios()),
        vec![
            "sentiment",
            "language_detection",
            "entities",
            "key_phrases",
            "pii_detection",
            "entity_linking",
            "summarization"
        ]
    );
    assert_eq!(
        ids(VisionService::new().list_scenarios()),
        vec!["analyze_image", "read_text", "detect_objects", "smart_crops", "people_detection"]
    );
    assert_eq!(ids(DocumentIntelligenceService::new().list_scenarios()), vec!["layout", "read"]);
    let speech = SpeechService::new().list_scenarios();
    assert_eq!(speech[3].name, "Speech-to-Text (Fast Transcription)");
    assert_eq!(speech[3].input_type, Some(InputType::Audio));
    assert!(!speech[3].requires_input);
    assert_eq!(speech[0].input_type, None);
    let found = find_scenario(&speech, "tts").unwrap();
    assert_eq!(found.description, "Synthesize speech from text");
    assert!(find_scenario(&speech, "TTS").is_none());
}

#[test]
fn services_by_name() {
    assert_eq!(get_service("speech"), Some(ServiceKind::Speech));
    assert_eq!(get_service("SPEECH"), Some(ServiceKind::Speech));
    assert_eq!(get_service("Translator"), Some(ServiceKind::Translator));
    assert_eq!(get_service("language"), Some(ServiceKind::Language));
    assert_eq!(get_service("vision"), Some(ServiceKind::Vision));
    for name in ["document_intelligence", "document-intelligence", "DocumentIntelligence"] {
        assert_eq!(get_service(name), Some(ServiceKind::DocumentIntelligence));
    }
    assert_eq!(get_service("storage"), None);
    assert_eq!(get_service(""), None);
    let all = get_all_services();
    assert_eq!(all.len(), 5);
    assert_eq!(all[0].name(), "speech");
    assert_eq!(all[4].display_name(), "Document Intelligence");
    assert_eq!(
        ServiceKind::Translator.get_endpoint("r", Cloud::Global, None),
        "https://api.cognitive.microsofttranslator.com"
    );
    assert_eq!(ServiceKind::Vision.list_scenarios().len(), 5);
}

#[test]
fn test_results() {
    let ok = TestResult::success("id", "Name", 12);
    assert!(ok.success);
    assert_eq!(ok.scenario_id, "id");
    assert_eq!(ok.scenario_name, "Name");
    assert_eq!(ok.duration_ms, 12);
    assert_eq!(ok.error, None);
    assert!(!ok.is_skipped());

    let failed = TestResult::failure("id", "Name", 5, "boom".to_string())
        .with_details("d".to_string())
        .with_http_status(503);
    assert!(!failed.success);
    assert_eq!(failed.error.as_deref(), Some("boom"));
    assert_eq!(failed.details.as_deref(), Some("d"));
    assert_eq!(failed.http_status, Some(503));
    assert!(!failed.is_skipped());

    let skipped = TestResult::skipped("id", "Name", "Requires image input".to_string());
    assert!(!skipped.success);
    assert_eq!(skipped.duration_ms, 0);
    assert_eq!(skipped.error.as_deref(), Some("Skipped: Requires image input"));
    assert!(skipped.is_skipped());

    let results = ServiceTestResults {
        service_name: "S".to_string(),
        endpoint: "e".to_string(),
        results: vec![ok.clone(), failed, skipped, ok],
        total_duration_ms: 0,
    };
    assert_eq!(results.passed(), 2);
    assert_eq!(results.failed(), 2);
    assert!(!results.all_passed());
    let none = ServiceTestResults {
        service_name: "S".to_string(),
        endpoint: "e".to_string(),
        results: vec![],
        total_duration_ms: 0,
    };
    assert_eq!(none.passed(), 0);
    assert_eq!(none.failed(), 0);
    assert!(none.all_passed());

    let unknown = unknown_scenario("nope");
    assert_eq!(unknown.scenario_name, "Unknown");
    assert_eq!(unknown.error.as_deref(), Some("Unknown scenario: nope"));
}

#[test]
fn results_from_outcomes() {
    let scenario = SpeechService::new().list_scenarios()[1];
    let passed = scenario_result(&scenario, Outcome::Passed("Retrieved 3 voices".to_string()), 80);
    assert!(passed.success);
    assert_eq!(passed.scenario_id, "voices_list");
    assert_eq!(passed.details.as_deref(), Some("Retrieved 3 voices"));
    assert_eq!(passed.http_status, None);
    let failed = scenario_result(
        &scenario,
        Outcome::Failed { status: 401, error: "HTTP 401".to_string() },
        9,
    );
    assert_eq!(failed.http_status, Some(401));
    assert_eq!(failed.error.as_deref(), Some("HTTP 401"));
    let unsent = scenario_result(
        &scenario,
        Outcome::Failed { status: 0, error: "Request failed: x".to_string() },
        9,
    );
    assert_eq!(unsent.http_status, None);
}

#[test]
fn test_inputs_and_context() {
    let text = TestInput::text("h\u{e9}".to_string());
    assert_eq!(text.data, vec![b'h', 0xC3, 0xA9]);
    assert_eq!(text.content_type, "text/plain");
    assert_eq!(text.text.as_deref(), Some("h\u{e9}"));
    let audio = TestInput::audio(vec![1, 2], "audio/wav");
    assert_eq!(audio.data, vec![1, 2]);
    assert_eq!(audio.content_type, "audio/wav");
    assert_eq!(audio.text, None);
    assert_eq!(TestInput::image(vec![3], "image/png").content_type, "image/png");
    assert_eq!(TestInput::document(vec![], "application/pdf").file_name, None);

    let context = TestContext::new(
        Credentials::ApiKey("k".to_string()),
        Cloud::China,
        "chinaeast2".to_string(),
        45,
    );
    assert_eq!(context.endpoint, None);
    assert!(context.input.is_none());
    assert!(!context.verbose);
    let (data, kind) = SpeechService::get_audio_data(&context);
    assert_eq!(data, minimal_wav());
    assert_eq!(kind, "audio/wav");
    let context = context
        .with_endpoint(Some("https://c".to_string()))
        .with_input(Some(audio))
        .with_verbose(true);
    assert_eq!(context.timeout_secs, 45);
    assert_eq!(context.region, "chinaeast2");
    assert_eq!(context.endpoint.as_deref(), Some("https://c"));
    assert!(context.verbose);
    let (data, kind) = SpeechService::get_audio_data(&context);
    assert_eq!(data, vec![1, 2]);
    assert_eq!(kind, "audio/wav");
}

#[test]
fn planning_of_scenarios() {
    let needs = TestScenario {
        id: "needs",
        name: "Needs",
        description: "d",
        requires_input: true,
        input_type: Some(InputType::Document),
    };
    let untyped = TestScenario { id: "untyped", input_type: None, ..needs };
    let free = TestScenario { id: "free", requires_input: false, ..needs };
    let scenarios = vec![needs, free, untyped];

    let steps = run_all_scenarios(&scenarios, None, false);
    assert_eq!(steps.len(), 3);
    match &steps[0] {
        Step::Skip(r) => {
            assert_eq!(r.scenario_id, "needs");
            assert_eq!(r.error.as_deref(), Some("Skipped: Requires document input"));
        }
        other => panic!("unexpected: {:?}", other),
    }
    assert!(matches!(&steps[1], Step::Run(s) if s.id == "free"));
    match &steps[2] {
        Step::Skip(r) => assert_eq!(r.error.as_deref(), Some("Skipped: Requires  input")),
        other => panic!("unexpected: {:?}", other),
    }

    let steps = run_all_scenarios(&scenarios, None, true);
    assert!(steps.iter().all(|s| matches!(s, Step::Run(_))));

    let enabled = vec!["untyped".to_string(), "free".to_string(), "other".to_string()];
    let steps = run_all_scenarios(&scenarios, Some(&enabled), true);
    assert_eq!(steps.len(), 2);
    assert!(matches!(&steps[0], Step::Run(s) if s.id == "free"));
    assert!(matches!(&steps[1], Step::Run(s) if s.id == "untyped"));
    assert!(run_all_scenarios(&scenarios, Some(&vec![]), true).is_empty());
}
