use azure_aitoolsconnect::auth::Credentials;
use azure_aitoolsconnect::config::Cloud;
use azure_aitoolsconnect::services::document_intelligence::{
    AnalysisStart, DocumentIntelligenceService, PollStep,
};
use azure_aitoolsconnect::services::exchange::{
    endpoint_check, Body, HeaderValue, HttpReply, HttpResponse, Method, Parsed, Part,
    ScenarioRequest,
};
use azure_aitoolsconnect::json::Json;
use azure_aitoolsconnect::services::language::{JobStart, JobStep, LanguageService};
use azure_aitoolsconnect::services::runner::{
    advance, request_for, run_scenario, shape_of, Facts, Next, Phase, Scenario, ScenarioRun,
    Shape, Start,
};
use azure_aitoolsconnect::services::speech::{minimal_wav, SpeechService};
use azure_aitoolsconnect::services::translator::{Translation, TranslatorService};
use azure_aitoolsconnect::services::vision::{minimal_png, VisionService};
use azure_aitoolsconnect::services::{Outcome, ServiceKind, TestContext, TestInput};

fn context() -> TestContext {
    TestContext::new(Credentials::ApiKey("k".to_string()), Cloud::Global, "eastus".to_string(), 30)
}

fn bearer_context(endpoint: &str) -> TestContext {
    TestContext::new(
        Credentials::BearerToken("tok".to_string()),
        Cloud::Global,
        "eastus".to_string(),
        30,
    )
    .with_endpoint(Some(endpoint.to_string()))
}

fn response(status: u16, status_text: &str, body: &str) -> HttpReply {
    HttpReply::Response(HttpResponse {
        status,
        status_text: status_text.to_string(),
        body: Ok(body.to_string()),
        body_len: body.len(),
        operation_location: HeaderValue::Absent,
    })
}

fn accepted(location: HeaderValue) -> HttpReply {
    HttpReply::Response(HttpResponse {
        status: 202,
        status_text: "202 Accepted".to_string(),
        body: Ok(String::new()),
        body_len: 0,
        operation_location: location,
    })
}

fn passed(o: Outcome) -> String {
    match o {
        Outcome::Passed(d) => d,
        other => panic!("unexpected: {:?}", other),
    }
}

fn failed(o: Outcome) -> (u16, String) {
    match o {
        Outcome::Failed { status, error } => (status, error),
        other => panic!("unexpected: {:?}", other),
    }
}

fn headers(r: &ScenarioRequest) -> Vec<(&str, &str)> {
    r.headers.iter().map(|f| (f.name.as_str(), f.value.as_str())).collect()
}

/// A JSON value of the library as text, for comparison.
fn show(j: &Json) -> String {
    match j {
        Json::Null => "null".to_string(),
        Json::Bool(b) => b.to_string(),
        Json::Number(n) => n.clone(),
        Json::Text(t) => format!("{:?}", t),
        Json::Array(items) => {
            format!("[{}]", items.iter().map(show).collect::<Vec<_>>().join(","))
        }
        Json::Object(members) => format!(
            "{{{}}}",
            members
                .iter()
                .map(|m| format!("{:?}:{}", m.name, show(&m.value)))
                .collect::<Vec<_>>()
                .join(",")
        ),
    }
}

#[test]
fn endpoint_probe() {
    assert_eq!(
        passed(endpoint_check(&response(404, "404 Not Found", ""))),
        "Endpoint reachable (HTTP 404 Not Found)"
    );
    assert_eq!(
        passed(endpoint_check(&response(499, "499", ""))),
        "Endpoint reachable (HTTP 499)"
    );
    assert_eq!(
        failed(endpoint_check(&response(500, "500 Internal Server Error", "stack"))),
        (500, "HTTP 500 Internal Server Error: Server error (HTTP 500)".to_string())
    );
    let message = |m: &str| failed(endpoint_check(&HttpReply::Failed(m.to_string())));
    assert_eq!(message("dns error"), (0, "DNS resolution failed: dns error".to_string()));
    assert_eq!(
        message("failed to resolve host"),
        (0, "DNS resolution failed: failed to resolve host".to_string())
    );
    assert_eq!(
        message("operation timed out"),
        (0, "Connection timed out: operation timed out".to_string())
    );
    assert_eq!(message("timeout"), (0, "Connection timed out: timeout".to_string()));
    assert_eq!(
        message("invalid certificate"),
        (0, "TLS/SSL error: invalid certificate".to_string())
    );
    assert_eq!(message("ssl broke"), (0, "TLS/SSL error: ssl broke".to_string()));
    assert_eq!(message("tls alert"), (0, "TLS/SSL error: tls alert".to_string()));
    assert_eq!(message("refused"), (0, "Connection failed: refused".to_string()));
    // The first rule that matches counts.
    assert_eq!(
        message("dns lookup timed out"),
        (0, "DNS resolution failed: dns lookup timed out".to_string())
    );
}

#[test]
fn speech_requests() {
    let c = context();
    let r = SpeechService::endpoint_check_request(&c);
    assert_eq!(r.method, Method::Get);
    assert_eq!(r.url, "https://eastus.api.cognitive.microsoft.com");
    assert!(r.headers.is_empty());

    let r = SpeechService::voices_list_request(&c);
    assert_eq!(r.url, "https://eastus.tts.speech.microsoft.com/cognitiveservices/voices/list");
    assert_eq!(headers(&r), vec![("Ocp-Apim-Subscription-Key", "k")]);

    let r = SpeechService::token_exchange_request(&c);
    assert_eq!(r.method, Method::Post);
    assert_eq!(r.url, "https://eastus.api.cognitive.microsoft.com/sts/v1.0/issueToken");
    assert_eq!(headers(&r), vec![("Content-Length", "0"), ("Ocp-Apim-Subscription-Key", "k")]);
    assert!(matches!(r.body, Body::Empty));

    let r = SpeechService::stt_short_request(&c);
    assert_eq!(
        r.url,
        "https://eastus.api.cognitive.microsoft.com/speechtotext/transcriptions:transcribe?api-version=2024-11-15"
    );
    match &r.body {
        Body::Multipart(parts) => {
            assert_eq!(parts.len(), 2);
            assert!(matches!(&parts[0], Part::Text { name, value }
                if name == "definition" && value == "{\"locales\":[\"en-US\"]}"));
            match &parts[1] {
                Part::File { name, data, file_name, content_type } => {
                    assert_eq!(name, "audio");
                    assert_eq!(data, &minimal_wav());
                    assert_eq!(file_name, "audio.wav");
                    assert_eq!(content_type, "audio/wav");
                }
                other => panic!("unexpected: {:?}", other),
            }
        }
        other => panic!("unexpected: {:?}", other),
    }

    let r = SpeechService::stt_rest_request(&c);
    assert_eq!(
        r.url,
        "https://eastus.stt.speech.microsoft.com/speech/recognition/conversation/cognitiveservices/v1?language=en-US&format=simple"
    );
    assert_eq!(headers(&r), vec![("Content-Type", "audio/wav"), ("Ocp-Apim-Subscription-Key", "k")]);
    let custom = bearer_context("https://res.cognitiveservices.azure.com/")
        .with_input(Some(TestInput::audio(vec![9, 9], "audio/ogg")));
    let r = SpeechService::stt_rest_request(&custom);
    assert_eq!(
        r.url,
        "https://res.cognitiveservices.azure.com/speechtotext/speech/recognition/conversation/cognitiveservices/v1?language=en-US&format=simple"
    );
    assert_eq!(headers(&r), vec![("Content-Type", "audio/ogg"), ("Authorization", "Bearer tok")]);
    assert!(matches!(&r.body, Body::Bytes(b) if b == &vec![9, 9]));

    let r = SpeechService::tts_request(&c);
    assert_eq!(r.url, "https://eastus.tts.speech.microsoft.com/cognitiveservices/v1");
    assert_eq!(
        headers(&r),
        vec![
            ("Content-Type", "application/ssml+xml"),
            ("X-Microsoft-OutputFormat", "audio-16khz-128kbitrate-mono-mp3"),
            ("User-Agent", "azure-aitoolsconnect/0.1.0"),
            ("Ocp-Apim-Subscription-Key", "k"),
        ]
    );
    assert!(matches!(&r.body, Body::Text(t) if t.starts_with("<speak version='1.0'")));
    let r = SpeechService::tts_request(&custom);
    assert_eq!(
        r.url,
        "https://res.cognitiveservices.azure.com/texttospeech/cognitiveservices/v1"
    );
}

#[test]
fn speech_outcomes() {
    let ok = response(200, "200 OK", "[]");
    assert_eq!(passed(SpeechService::test_voices_list(&ok, Parsed::Value(412))), "Retrieved 412 voices");
    assert_eq!(
        failed(SpeechService::test_voices_list(&ok, Parsed::Invalid("missing field".into()))),
        (200, "Failed to parse response: missing field".to_string())
    );
    assert_eq!(
        failed(SpeechService::test_voices_list(
            &response(401, "401 Unauthorized", "denied"),
            Parsed::Value(3)
        )),
        (401, "HTTP 401 Unauthorized: denied".to_string())
    );
    assert_eq!(
        failed(SpeechService::test_voices_list(&HttpReply::Failed("x".into()), Parsed::Value(3))),
        (0, "Request failed: x".to_string())
    );

    let token = "t".repeat(101);
    assert_eq!(
        passed(SpeechService::test_token_exchange(&response(200, "200 OK", &token))),
        "Token received (101 chars)"
    );
    assert_eq!(
        failed(SpeechService::test_token_exchange(&response(200, "200 OK", &"t".repeat(100)))),
        (200, "Invalid token received".to_string())
    );
    let unreadable = HttpReply::Response(HttpResponse {
        status: 200,
        status_text: "200 OK".to_string(),
        body: Err("broken".to_string()),
        body_len: 0,
        operation_location: HeaderValue::Absent,
    });
    assert_eq!(
        failed(SpeechService::test_token_exchange(&unreadable)),
        (200, "Failed to read token: broken".to_string())
    );

    assert_eq!(
        passed(SpeechService::test_stt_short(&response(200, "200 OK", "{\"text\":\"\"}"))),
        "Transcription received: 11 chars"
    );
    assert_eq!(
        passed(SpeechService::test_stt_short(&response(400, "400 Bad Request", "bad audio format"))),
        "Endpoint responsive (audio validation: HTTP 400 Bad Request)"
    );
    assert_eq!(
        failed(SpeechService::test_stt_short(&response(400, "400 Bad Request", "USP error"))),
        (400, "HTTP 400 Bad Request: USP error".to_string())
    );
    assert_eq!(
        passed(SpeechService::test_stt_rest(&response(400, "400 Bad Request", "USP error"))),
        "Endpoint responsive (audio validation: HTTP 400 Bad Request)"
    );
    assert_eq!(
        passed(SpeechService::test_stt_rest(&response(200, "200 OK", "abc"))),
        "Recognition result: 3 chars"
    );
    // A refusal with status 400 shows the body as it is, however long.
    let long = "x".repeat(300);
    assert_eq!(
        failed(SpeechService::test_stt_rest(&response(400, "400 Bad Request", &long))),
        (400, format!("HTTP 400 Bad Request: {}", long))
    );
    assert_eq!(
        failed(SpeechService::test_stt_rest(&response(403, "403 Forbidden", &long))),
        (403, format!("HTTP 403 Forbidden: {}... (truncated)", "x".repeat(200)))
    );
    assert_eq!(
        passed(SpeechService::test_tts(&response(200, "200 OK", "12345"))),
        "Audio synthesized: 5 bytes"
    );
}

#[test]
fn translator_requests_and_outcomes() {
    let c = context();
    let r = TranslatorService::languages_request(&bearer_context("https://custom"));
    assert_eq!(r.url, "https://api.cognitive.microsofttranslator.com/languages?api-version=3.0");
    assert!(r.headers.is_empty());
    let r = TranslatorService::endpoint_check_request(&bearer_context("https://custom/"));
    assert_eq!(r.url, "https://custom/translator/text/v3.0");

    let r = TranslatorService::detect_request(&c);
    assert_eq!(r.url, "https://api.cognitive.microsofttranslator.com/detect?api-version=3.0");
    assert_eq!(
        headers(&r),
        vec![
            ("Content-Type", "application/json"),
            ("Ocp-Apim-Subscription-Key", "k"),
            ("Ocp-Apim-Subscription-Region", "eastus"),
        ]
    );
    match &r.body {
        Body::Json(j) => assert_eq!(show(j), "[{\"Text\":\"Hello, how are you today?\"}]"),
        other => panic!("unexpected: {:?}", other),
    }
    let with_text = context().with_input(Some(TestInput::text("Bonjour".to_string())));
    let r = TranslatorService::translate_request(&with_text);
    assert_eq!(
        r.url,
        "https://api.cognitive.microsofttranslator.com/translate?api-version=3.0&to=es"
    );
    match &r.body {
        Body::Json(j) => assert_eq!(show(j), "[{\"Text\":\"Bonjour\"}]"),
        other => panic!("unexpected: {:?}", other),
    }

    let ok = response(200, "200 OK", "{\"translation\":{\"en\":{},\"fr\":{},\"de\":{}}}");
    assert_eq!(passed(TranslatorService::test_languages(&ok)), "3 translation languages available");
    assert_eq!(
        passed(TranslatorService::test_languages(&response(200, "200 OK", "not json"))),
        "0 translation languages available"
    );
    assert_eq!(
        passed(TranslatorService::test_languages(&response(200, "200 OK", "{\"translation\":[1]}"))),
        "0 translation languages available"
    );

    assert_eq!(
        passed(TranslatorService::test_detect(&ok, Parsed::Value(Some("en".to_string())))),
        "Detected language: en"
    );
    assert_eq!(
        failed(TranslatorService::test_detect(&ok, Parsed::Value(None))),
        (200, "Empty response".to_string())
    );
    assert_eq!(
        failed(TranslatorService::test_detect(&ok, Parsed::Invalid("eof".to_string()))),
        (200, "Failed to parse response: eof".to_string())
    );

    let long = "a".repeat(49) + "\u{e9}bcd";
    assert_eq!(
        passed(TranslatorService::test_translate(
            &ok,
            Parsed::Value(Some(Some(Translation { to: "es".to_string(), text: long })))
        )),
        format!("Translated to es: {}\u{e9}", "a".repeat(49))
    );
    assert_eq!(
        passed(TranslatorService::test_translate(
            &ok,
            Parsed::Value(Some(Some(Translation { to: "es".into(), text: "Hola".into() })))
        )),
        "Translated to es: Hola"
    );
    assert_eq!(
        failed(TranslatorService::test_translate(&ok, Parsed::Value(Some(None)))),
        (200, "No translations returned".to_string())
    );
    assert_eq!(
        failed(TranslatorService::test_translate(&ok, Parsed::Value(None))),
        (200, "Empty response".to_string())
    );
}

#[test]
fn language_requests() {
    let c = context();
    let r = LanguageService::sentiment_request(&c);
    assert_eq!(
        r.url,
        "https://eastus.api.cognitive.microsoft.com/language/:analyze-text?api-version=2023-04-01"
    );
    assert_eq!(
        headers(&r),
        vec![("Content-Type", "application/json"), ("Ocp-Apim-Subscription-Key", "k")]
    );
    let body = |r: &ScenarioRequest| match &r.body {
        Body::Json(j) => show(j),
        other => panic!("unexpected: {:?}", other),
    };
    let text = LanguageService::get_sample_text(&c);
    assert!(text.starts_with("The Azure AI services are excellent."));
    assert_eq!(
        body(&r),
        format!(
            "{{\"kind\":\"SentimentAnalysis\",\"analysisInput\":{{\"documents\":[{{\"id\":\"1\",\"text\":{:?},\"language\":\"en\"}}]}}}}",
            text
        )
    );
    let with_text = context().with_input(Some(TestInput::text("hi".to_string())));
    assert_eq!(
        body(&LanguageService::language_detection_request(&with_text)),
        "{\"kind\":\"LanguageDetection\",\"analysisInput\":{\"documents\":[{\"id\":\"1\",\"text\":\"hi\"}]}}"
    );
    assert!(body(&LanguageService::entities_request(&with_text)).contains("\"EntityRecognition\""));
    assert!(body(&LanguageService::key_phrases_request(&with_text)).contains("\"KeyPhraseExtraction\""));
    assert!(body(&LanguageService::pii_detection_request(&c)).contains("john.smith@example.com"));
    assert!(body(&LanguageService::pii_detection_request(&c)).contains("\"PiiEntityRecognition\""));
    assert!(body(&LanguageService::entity_linking_request(&c)).contains("Bill Gates"));
    let r = LanguageService::summarization_request(&with_text);
    assert_eq!(
        r.url,
        "https://eastus.api.cognitive.microsoft.com/language/analyze-text/jobs?api-version=2023-04-01"
    );
    assert_eq!(
        body(&r),
        "{\"displayName\":\"Summarization Test\",\"analysisInput\":{\"documents\":[{\"id\":\"1\",\"text\":\"hi\",\"language\":\"en\"}]},\"tasks\":[{\"kind\":\"AbstractiveSummarization\",\"taskName\":\"Summarize\",\"parameters\":{\"sentenceCount\":2}}]}"
    );
    // A custom endpoint is used as it is.
    let r = LanguageService::sentiment_request(&bearer_context("https://c.example/"));
    assert_eq!(r.url, "https://c.example//language/:analyze-text?api-version=2023-04-01");
}

#[test]
fn language_outcomes() {
    let doc = |inner: &str| {
        response(200, "200 OK", &format!("{{\"results\":{{\"documents\":[{}]}}}}", inner))
    };
    assert_eq!(
        passed(LanguageService::test_sentiment(&doc("{\"sentiment\":\"positive\"}"))),
        "Sentiment: positive"
    );
    assert_eq!(passed(LanguageService::test_sentiment(&doc("{}"))), "Sentiment: unknown");
    assert_eq!(
        passed(LanguageService::test_sentiment(&doc("{\"sentiment\":3},{\"sentiment\":\"x\"}"))),
        "Sentiment: unknown"
    );
    assert_eq!(
        failed(LanguageService::test_sentiment(&doc(""))),
        (200, "No documents in response".to_string())
    );
    assert_eq!(
        failed(LanguageService::test_sentiment(&response(200, "200 OK", "{\"results\":{}}"))),
        (200, "Invalid response format".to_string())
    );
    assert_eq!(
        failed(LanguageService::test_sentiment(&response(201, "201 Created", "oops"))),
        (201, "Invalid response format".to_string())
    );
    assert_eq!(
        failed(LanguageService::test_sentiment(&response(429, "429 Too Many Requests", "slow"))),
        (429, "HTTP 429 Too Many Requests: slow".to_string())
    );
    assert_eq!(
        passed(LanguageService::test_language_detection(&doc(
            "{\"detectedLanguage\":{\"name\":\"English\",\"iso6391Name\":\"en\"}}"
        ))),
        "Detected: English"
    );
    assert_eq!(
        passed(LanguageService::test_language_detection(&doc("{\"detectedLanguage\":\"en\"}"))),
        "Detected: unknown"
    );
    assert_eq!(
        passed(LanguageService::test_entities(&doc("{\"entities\":[{},{},{}]}"))),
        "Found 3 entities"
    );
    assert_eq!(passed(LanguageService::test_entities(&doc("{\"entities\":{}}"))), "Found 0 entities");
    assert_eq!(
        passed(LanguageService::test_key_phrases(&doc("{\"keyPhrases\":[\"a\",\"b\"]}"))),
        "Extracted 2 key phrases"
    );
    assert_eq!(
        passed(LanguageService::test_pii_detection(&doc("{\"entities\":[1]}"))),
        "Found 1 PII entities"
    );
    assert_eq!(
        passed(LanguageService::test_entity_linking(&doc("{\"entities\":[]}"))),
        "Linked 0 entities"
    );
}

#[test]
fn summarization_job() {
    match LanguageService::test_summarization(&accepted(HeaderValue::Text("https://op".into()))) {
        JobStart::Accepted(url) => assert_eq!(url, "https://op"),
        other => panic!("unexpected: {:?}", other),
    }
    match LanguageService::test_summarization(&accepted(HeaderValue::Opaque)) {
        JobStart::Accepted(url) => assert_eq!(url, ""),
        other => panic!("unexpected: {:?}", other),
    }
    match LanguageService::test_summarization(&accepted(HeaderValue::Absent)) {
        JobStart::Finished(o) => {
            assert_eq!(failed(o), (202, "No operation-location header".to_string()))
        }
        other => panic!("unexpected: {:?}", other),
    }
    match LanguageService::test_summarization(&response(200, "200 OK", "")) {
        JobStart::Finished(o) => assert_eq!(passed(o), "Summarization submitted"),
        other => panic!("unexpected: {:?}", other),
    }
    match LanguageService::test_summarization(&response(400, "400 Bad Request", "bad")) {
        JobStart::Finished(o) => assert_eq!(failed(o), (400, "HTTP 400 Bad Request: bad".into())),
        other => panic!("unexpected: {:?}", other),
    }

    let running = response(200, "200 OK", "{\"status\":\"running\"}");
    assert!(matches!(
        LanguageService::summarization_step(10, &running),
        JobStep::Again { attempts_left: 9, wait_millis: 500 }
    ));
    assert!(matches!(
        LanguageService::summarization_step(2, &HttpReply::Failed("x".into())),
        JobStep::Again { attempts_left: 1, wait_millis: 500 }
    ));
    assert!(matches!(
        LanguageService::summarization_step(3, &response(500, "500", "")),
        JobStep::Again { attempts_left: 2, .. }
    ));
    match LanguageService::summarization_step(1, &running) {
        JobStep::Finished(o) => {
            assert_eq!(passed(o), "Job submitted (polling timeout, but endpoint responsive)")
        }
        other => panic!("unexpected: {:?}", other),
    }
    let done = response(
        200,
        "200 OK",
        "{\"status\":\"succeeded\",\"tasks\":{\"items\":[{\"results\":{\"documents\":[{\"summaries\":[{},{}]}]}}]}}",
    );
    match LanguageService::summarization_step(7, &done) {
        JobStep::Finished(o) => assert_eq!(passed(o), "Generated 2 summary/summaries"),
        other => panic!("unexpected: {:?}", other),
    }
    match LanguageService::summarization_step(7, &response(200, "200 OK", "{\"status\":\"succeeded\"}")) {
        JobStep::Finished(o) => assert_eq!(passed(o), "Summarization completed"),
        other => panic!("unexpected: {:?}", other),
    }
    match LanguageService::summarization_step(7, &response(200, "200 OK", "{\"status\":\"failed\"}")) {
        JobStep::Finished(o) => assert_eq!(failed(o), (200, "Summarization job failed".into())),
        other => panic!("unexpected: {:?}", other),
    }
}

#[test]
fn vision_requests_and_outcomes() {
    let c = context();
    let r = VisionService::analyze_image_request(&c);
    assert_eq!(
        r.url,
        "https://eastus.api.cognitive.microsoft.com/computervision/imageanalysis:analyze?api-version=2024-02-01&features=tags,objects,read"
    );
    assert_eq!(headers(&r), vec![("Content-Type", "image/png"), ("Ocp-Apim-Subscription-Key", "k")]);
    let png = minimal_png();
    assert_eq!(png.len(), 114);
    assert_eq!(&png[0..8], &[0x89, b'P', b'N', b'G', 0x0D, 0x0A, 0x1A, 0x0A]);
    assert_eq!(&png[png.len() - 8..], &[b'I', b'E', b'N', b'D', 0xAE, 0x42, 0x60, 0x82]);
    assert!(matches!(&r.body, Body::Bytes(b) if b == &png));
    assert!(VisionService::read_text_request(&c).url.ends_with("&features=read"));
    assert!(VisionService::detect_objects_request(&c).url.ends_with("&features=objects"));
    assert!(VisionService::smart_crops_request(&c)
        .url
        .ends_with("&features=smartCrops&smartCrops-aspect-ratios=1.0,1.5"));
    assert!(VisionService::people_detection_request(&c).url.ends_with("&features=people"));
    let with_image = context().with_input(Some(TestInput::image(vec![1], "image/jpeg")));
    let (data, kind) = VisionService::get_image_data(&with_image);
    assert_eq!((data, kind.as_str()), (vec![1], "image/jpeg"));

    assert_eq!(
        passed(VisionService::test_analyze_image(&response(
            200,
            "200 OK",
            "{\"tagsResult\":{},\"readResult\":null}"
        ))),
        "Analysis complete (tags: true, objects: false, read: true)"
    );
    assert_eq!(
        passed(VisionService::test_analyze_image(&response(200, "200 OK", ""))),
        "Analysis complete (tags: false, objects: false, read: false)"
    );
    assert_eq!(
        passed(VisionService::test_read_text(&response(
            200,
            "200 OK",
            "{\"readResult\":{\"blocks\":[{},{}]}}"
        ))),
        "Read complete: 2 text blocks found"
    );
    assert_eq!(
        passed(VisionService::test_detect_objects(&response(
            200,
            "200 OK",
            "{\"objectsResult\":{\"values\":[1,2,3]}}"
        ))),
        "Detection complete: 3 objects found"
    );
    assert_eq!(
        passed(VisionService::test_smart_crops(&response(200, "200 OK", "{}"))),
        "Smart crops complete: 0 crop regions"
    );
    assert_eq!(
        passed(VisionService::test_people_detection(&response(
            200,
            "200 OK",
            "{\"peopleResult\":{\"values\":[{}]}}"
        ))),
        "People detection complete: 1 people found"
    );
    assert_eq!(
        failed(VisionService::test_people_detection(&response(404, "404 Not Found", "nope"))),
        (404, "HTTP 404 Not Found: nope".to_string())
    );
}

#[test]
fn document_analysis() {
    let c = context();
    let r = DocumentIntelligenceService::test_layout(&c);
    assert_eq!(
        r.url,
        "https://eastus.api.cognitive.microsoft.com/documentintelligence/documentModels/prebuilt-layout:analyze?api-version=2024-11-30"
    );
    assert_eq!(
        headers(&r),
        vec![("Content-Type", "application/pdf"), ("Ocp-Apim-Subscription-Key", "k")]
    );
    match &r.body {
        Body::Bytes(b) => {
            assert!(b.starts_with(b"%PDF-1.4\n1 0 obj\n"));
            assert!(b.ends_with(b"startxref\n196\n%%EOF"));
        }
        other => panic!("unexpected: {:?}", other),
    }
    assert!(DocumentIntelligenceService::test_read(&c).url.contains("/prebuilt-read:analyze?"));

    match DocumentIntelligenceService::analyze_document(&accepted(HeaderValue::Text("u".into()))) {
        AnalysisStart::Accepted(url) => assert_eq!(url, "u"),
        other => panic!("unexpected: {:?}", other),
    }
    for location in [HeaderValue::Absent, HeaderValue::Opaque] {
        match DocumentIntelligenceService::analyze_document(&accepted(location)) {
            AnalysisStart::Finished(o) => {
                assert_eq!(failed(o), (202, "No operation-location header in response".into()))
            }
            other => panic!("unexpected: {:?}", other),
        }
    }
    match DocumentIntelligenceService::analyze_document(&response(
        200,
        "200 OK",
        "{\"status\":\"succeeded\"}",
    )) {
        AnalysisStart::Finished(o) => {
            assert_eq!(passed(o), "Analysis complete: Some(String(\"succeeded\"))")
        }
        other => panic!("unexpected: {:?}", other),
    }
    match DocumentIntelligenceService::analyze_document(&response(200, "200 OK", "garbage")) {
        AnalysisStart::Finished(o) => assert_eq!(passed(o), "Analysis complete: None"),
        other => panic!("unexpected: {:?}", other),
    }

    let step = |attempts, reply: &HttpReply| DocumentIntelligenceService::poll_operation(attempts, reply);
    assert!(matches!(
        step(30, &response(200, "200 OK", "{\"status\":\"running\"}")),
        PollStep::Again { attempts_left: 29, wait_millis: 1000 }
    ));
    assert!(matches!(
        step(5, &response(200, "200 OK", "{\"status\":\"notStarted\"}")),
        PollStep::Again { attempts_left: 4, .. }
    ));
    assert!(matches!(step(5, &response(200, "200 OK", "{}")), PollStep::Again { .. }));
    let finished = |s: PollStep| match s {
        PollStep::Finished(o) => o,
        other => panic!("unexpected: {:?}", other),
    };
    assert_eq!(
        failed(finished(step(1, &response(200, "200 OK", "{\"status\":\"running\"}")))),
        (0, "Operation timed out after 30 seconds".to_string())
    );
    assert_eq!(
        passed(finished(step(
            9,
            &response(200, "200 OK", "{\"status\":\"succeeded\",\"analyzeResult\":{\"pages\":[{}]}}")
        ))),
        "Analysis succeeded: 1 pages processed"
    );
    assert_eq!(
        failed(finished(step(
            9,
            &response(200, "200 OK", "{\"status\":\"failed\",\"error\":{\"message\":\"bad pdf\"}}")
        ))),
        (200, "Analysis failed: bad pdf".to_string())
    );
    assert_eq!(
        failed(finished(step(9, &response(200, "200 OK", "{\"status\":\"failed\"}")))),
        (200, "Analysis failed: Unknown error".to_string())
    );
    assert_eq!(
        failed(finished(step(9, &response(200, "200 OK", "{\"status\":\"paused\"}")))),
        (200, "Unknown status: paused".to_string())
    );
    assert_eq!(
        failed(finished(step(9, &response(503, "503 Service Unavailable", "later")))),
        (503, "HTTP 503 Service Unavailable: later".to_string())
    );
    assert_eq!(
        failed(finished(step(9, &HttpReply::Failed("reset".into())))),
        (0, "Poll request failed: reset".to_string())
    );
}

#[test]
fn runner_begins_and_ends_scenarios() {
    let c = context();
    match run_scenario(ServiceKind::Speech, "nope", &c) {
        Start::Unknown(result) => {
            assert_eq!(result.scenario_name, "Unknown");
            assert_eq!(result.error.as_deref(), Some("Unknown scenario: nope"));
        }
        other => panic!("unexpected: {:?}", other),
    }
    // A scenario of another service is not known to this one.
    assert!(matches!(run_scenario(ServiceKind::Vision, "tts", &c), Start::Unknown(_)));
    let (scenario, run, request) = match run_scenario(ServiceKind::Speech, "tts", &c) {
        Start::Run { scenario, run, request } => (scenario, run, request),
        other => panic!("unexpected: {:?}", other),
    };
    assert_eq!(scenario.name, "Text-to-Speech");
    assert_eq!(run.scenario, Scenario::SpeechTts);
    assert!(matches!(run.phase, Phase::First));
    assert_eq!(request.url, "https://eastus.tts.speech.microsoft.com/cognitiveservices/v1");
    match advance(run, &c, &response(200, "200 OK", "abc"), Facts::Unread) {
        Next::Done(o) => assert_eq!(passed(o), "Audio synthesized: 3 bytes"),
        other => panic!("unexpected: {:?}", other),
    }

    assert_eq!(shape_of(Scenario::SpeechVoicesList), Shape::Voices);
    assert_eq!(shape_of(Scenario::TranslatorDetect), Shape::Detections);
    assert_eq!(shape_of(Scenario::TranslatorTranslate), Shape::Translations);
    assert_eq!(shape_of(Scenario::LanguageSentiment), Shape::Free);
    let voices = ScenarioRun { scenario: Scenario::SpeechVoicesList, phase: Phase::First };
    match advance(voices, &c, &response(200, "200 OK", "[]"), Facts::Voices(Parsed::Value(7))) {
        Next::Done(o) => assert_eq!(passed(o), "Retrieved 7 voices"),
        other => panic!("unexpected: {:?}", other),
    }
    let voices = ScenarioRun { scenario: Scenario::SpeechVoicesList, phase: Phase::First };
    match advance(voices, &c, &response(200, "200 OK", "[]"), Facts::Unread) {
        Next::Done(o) => assert_eq!(failed(o), (200, "Failed to parse response: ".to_string())),
        other => panic!("unexpected: {:?}", other),
    }
    // Every service answers for each of its scenarios.
    for kind in [
        ServiceKind::Speech,
        ServiceKind::Translator,
        ServiceKind::Language,
        ServiceKind::Vision,
        ServiceKind::DocumentIntelligence,
    ] {
        for s in kind.list_scenarios() {
            assert!(matches!(run_scenario(kind, s.id, &c), Start::Run { .. }), "{}", s.id);
        }
    }
    assert_eq!(
        request_for(Scenario::DocumentRead, &c).url,
        DocumentIntelligenceService::test_read(&c).url
    );
}

#[test]
fn runner_follows_a_document_analysis() {
    let c = context();
    let mut run = ScenarioRun { scenario: Scenario::DocumentLayout, phase: Phase::First };
    let mut reply = accepted(HeaderValue::Text("https://op/1".to_string()));
    let mut looks = 0;
    let outcome = loop {
        match advance(run, &c, &reply, Facts::Unread) {
            Next::Send { wait_millis, request, run: next } => {
                assert_eq!(wait_millis, 1000);
                assert_eq!(request.method, Method::Get);
                assert_eq!(request.url, "https://op/1");
                assert_eq!(headers(&request), vec![("Ocp-Apim-Subscription-Key", "k")]);
                looks += 1;
                run = next;
                reply = response(200, "200 OK", "{\"status\":\"running\"}");
            }
            Next::Done(o) => break o,
        }
    };
    assert_eq!(looks, 30);
    assert_eq!(failed(outcome), (0, "Operation timed out after 30 seconds".to_string()));

    let mut run = ScenarioRun { scenario: Scenario::LanguageSummarization, phase: Phase::First };
    let mut reply = accepted(HeaderValue::Text("https://job".to_string()));
    let mut looks = 0;
    let outcome = loop {
        match advance(run, &c, &reply, Facts::Unread) {
            Next::Send { wait_millis, run: next, .. } => {
                assert_eq!(wait_millis, 500);
                looks += 1;
                run = next;
                reply = HttpReply::Failed("flaky".to_string());
            }
            Next::Done(o) => break o,
        }
    };
    assert_eq!(looks, 10);
    assert_eq!(passed(outcome), "Job submitted (polling timeout, but endpoint responsive)");
}

#[test]
fn json_reading() {
    let r = response(200, "200 OK", "{\"a\":{\"b\":[1,\"two\",null,true,{\"c\":2.5}]},\"s\":\"x\"}");
    let body = match &r {
        HttpReply::Response(x) => x.json(),
        _ => unreachable!(),
    };
    assert_eq!(body.count2("a", "b"), 5);
    assert_eq!(body.count("s"), 0);
    assert_eq!(body.text_at("s"), Some("x"));
    assert_eq!(body.text_at("a"), None);
    assert_eq!(body.object_len(), Some(2));
    assert!(body.get("missing").is_none());
    let items = body.get2("a", "b").unwrap().as_array().unwrap();
    assert_eq!(show(&items[0]), "1");
    assert_eq!(items[1].as_str(), Some("two"));
    assert!(matches!(items[2], Json::Null));
    assert!(matches!(items[3], Json::Bool(true)));
    assert_eq!(show(&items[4]), "{\"c\":2.5}");
    assert_eq!(items[4].as_array().map(|v| v.len()), None);
    let broken = match response(200, "200 OK", "{\"a\":") {
        HttpReply::Response(x) => x.json(),
        _ => unreachable!(),
    };
    assert!(matches!(broken, Json::Null));
}

#[test]
fn refusal_takes_every_body() {
    let refused = |body: &str| match response(404, "404 Not Found", body) {
        HttpReply::Response(r) => failed(r.refusal()).1,
        _ => unreachable!(),
    };
    assert_eq!(refused("gone"), "HTTP 404 Not Found: gone");
    let long = "y".repeat(201);
    assert_eq!(refused(&long), format!("HTTP 404 Not Found: {}... (truncated)", "y".repeat(200)));
    // A character that lies across byte 200 is left out whole.
    let wide = format!("{}\u{e9}tail", "z".repeat(199));
    assert_eq!(refused(&wide), format!("HTTP 404 Not Found: {}... (truncated)", "z".repeat(199)));
}
