//! Speech Service: voices, speech to text and text to speech.

use crate::config::Cloud;
use crate::services::{
    offer, offered, regional, regional_endpoint, scenarios_view, AzureService, InputType, Outcome,
    OutcomeView, TestContext, TestContextView, TestScenario, TestScenarioView,
};
use crate::services::exchange::{
    counted, endpoint_check, endpoint_outcome, no_headers, passed_count, push_header,
    with_credentials, Body, BodyView, HttpReply, HttpReplyView, Method, Parsed, ParsedView, Part,
    PartView, ScenarioRequest, ScenarioRequestView,
};
use crate::text::{contains, str_contains, str_trim_end, trim_end};
use vstd::prelude::*;
use vstd::string::*;

verus! {

/// The scenarios that the service offers, in the order in which they run.
pub open spec fn scenarios() -> Seq<TestScenarioView> {
    seq![
        offered("endpoint_check"@, "Endpoint Reachability"@, "Verify endpoint DNS, TLS, and connectivity"@, None),
        offered("voices_list"@, "Get Voices List"@, "Retrieve available TTS voices"@, None),
        offered("token_exchange"@, "Token Exchange"@, "Exchange API key for short-lived token"@, None),
        offered("stt_short"@, "Speech-to-Text (Fast Transcription)"@, "Transcribe audio using Fast Transcription API"@, Some(InputType::Audio)),
        offered("stt_rest"@, "Speech-to-Text (REST API)"@, "Transcribe audio using traditional REST API"@, Some(InputType::Audio)),
        offered("tts"@, "Text-to-Speech"@, "Synthesize speech from text"@, None),
    ]
}

/// The base endpoint: the custom endpoint without the slashes at its end
/// where one is given, else the regional endpoint of the cloud.
pub open spec fn endpoint_text(
    region: Seq<char>,
    cloud: Cloud,
    custom_endpoint: Option<Seq<char>>,
) -> Seq<char> {
    match custom_endpoint {
        Some(e) => trim_end(e, '/'),
        None => regional_endpoint(region, cloud),
    }
}

/// Speech Service implementation.
#[derive(Debug, Clone, Copy)]
pub struct SpeechService;

impl SpeechService {
    pub fn new() -> (r: SpeechService) {
        SpeechService
    }
}

impl Default for SpeechService {
    fn default() -> (r: SpeechService) {
        SpeechService::new()
    }
}

impl AzureService for SpeechService {
    fn name(&self) -> (r: &'static str)
        ensures
            r@ == "speech"@,
    {
        "speech"
    }

    fn display_name(&self) -> (r: &'static str)
        ensures
            r@ == "Speech"@,
    {
        "Speech"
    }

    /// The custom endpoint without the slashes at its end where one is
    /// given, else the regional endpoint of the cloud.
    fn get_endpoint(&self, region: &str, cloud: Cloud, custom_endpoint: Option<&str>) -> (r: String)
        ensures
            r@ == endpoint_text(
                region@,
                cloud,
                match custom_endpoint {
                    Some(e) => Some(e@),
                    None => None,
                },
            ),
    {
        match custom_endpoint {
            Some(endpoint) => str_trim_end(endpoint, '/'),
            None => regional(region, cloud),
        }
    }

    fn list_scenarios(&self) -> (r: Vec<TestScenario>)
        ensures
            scenarios_view(r@) == scenarios(),
    {
        let mut r: Vec<TestScenario> = Vec::new();
        r.push(offer("endpoint_check", "Endpoint Reachability", "Verify endpoint DNS, TLS, and connectivity", None));
        r.push(offer("voices_list", "Get Voices List", "Retrieve available TTS voices", None));
        r.push(offer("token_exchange", "Token Exchange", "Exchange API key for short-lived token", None));
        r.push(offer("stt_short", "Speech-to-Text (Fast Transcription)", "Transcribe audio using Fast Transcription API", Some(InputType::Audio)));
        r.push(offer("stt_rest", "Speech-to-Text (REST API)", "Transcribe audio using traditional REST API", Some(InputType::Audio)));
        r.push(offer("tts", "Text-to-Speech", "Synthesize speech from text", None));
        assert(scenarios_view(r@) =~= scenarios());
        r
    }
}

/// The number of silent bytes in the built-in audio sample: 1600 samples of
/// two bytes.
pub const WAV_DATA_SIZE: usize = 3200;

/// The 44 bytes that begin the built-in audio sample: a RIFF header for
/// PCM audio, one channel, 16000 samples a second, 16 bits a sample, 3200
/// bytes of data.
pub open spec fn wav_header() -> Seq<u8> {
    seq![
        0x52u8, 0x49, 0x46, 0x46,
        0xA4, 0x0C, 0x00, 0x00,
        0x57, 0x41, 0x56, 0x45,
        0x66, 0x6D, 0x74, 0x20,
        16, 0, 0, 0,
        1, 0,
        1, 0,
        0x80, 0x3E, 0, 0,
        0x00, 0x7D, 0, 0,
        2, 0,
        16, 0,
        0x64, 0x61, 0x74, 0x61,
        0x80, 0x0C, 0x00, 0x00,
    ]
}

/// The built-in audio sample: the header and a tenth of a second of
/// silence.
pub open spec fn minimal_wav_bytes() -> Seq<u8> {
    wav_header() + Seq::new(WAV_DATA_SIZE as nat, |i: int| 0u8)
}

/// Minimal valid WAV file: PCM 16kHz, 16-bit, mono, a tenth of a second of
/// silence.
pub fn minimal_wav() -> (r: Vec<u8>)
    ensures
        r@ == minimal_wav_bytes(),
        r.len() == 44 + WAV_DATA_SIZE,
{
    let header: [u8; 44] = [
        0x52, 0x49, 0x46, 0x46,
        0xA4, 0x0C, 0x00, 0x00,
        0x57, 0x41, 0x56, 0x45,
        0x66, 0x6D, 0x74, 0x20,
        16, 0, 0, 0,
        1, 0,
        1, 0,
        0x80, 0x3E, 0, 0,
        0x00, 0x7D, 0, 0,
        2, 0,
        16, 0,
        0x64, 0x61, 0x74, 0x61,
        0x80, 0x0C, 0x00, 0x00,
    ];
    let mut r: Vec<u8> = Vec::new();
    let mut i: usize = 0;
    while i < 44
        invariant
            i <= 44,
            r.len() == i,
            header@ == wav_header(),
            forall|k: int| 0 <= k < i ==> r@[k] == wav_header()[k],
        decreases 44 - i,
    {
        r.push(header[i]);
        i += 1;
    }
    let mut j: usize = 0;
    while j < WAV_DATA_SIZE
        invariant
            j <= WAV_DATA_SIZE,
            r.len() == 44 + j,
            forall|k: int| 0 <= k < 44 ==> r@[k] == wav_header()[k],
            forall|k: int| 44 <= k < 44 + j ==> r@[k] == 0u8,
        decreases WAV_DATA_SIZE - j,
    {
        r.push(0);
        j += 1;
    }
    assert(r@ =~= minimal_wav_bytes());
    r
}

/// The host of a dedicated speech endpoint in a cloud.
pub open spec fn speech_host(kind: Seq<char>, region: Seq<char>, cloud: Cloud) -> Seq<char> {
    "https://"@ + region + "."@ + kind + match cloud {
        Cloud::Global => ".speech.microsoft.com"@,
        Cloud::China => ".speech.azure.cn"@,
    }
}

fn dedicated(kind: &str, region: &str, cloud: Cloud) -> (r: String)
    ensures
        r@ == speech_host(kind@, region@, cloud),
{
    let mut r = "https://".to_owned();
    r.append(region);
    r.append(".");
    r.append(kind);
    match cloud {
        Cloud::Global => r.append(".speech.microsoft.com"),
        Cloud::China => r.append(".speech.azure.cn"),
    }
    r
}

impl SpeechService {
    /// Get audio data from the input of the context, or the built-in sample
    /// as `audio/wav` where the context has none.
    pub fn get_audio_data(context: &TestContext) -> (r: (Vec<u8>, String))
        ensures
            match context@.input {
                Some(input) => r.0@ == input.data && r.1@ == input.content_type,
                None => r.0@ == minimal_wav_bytes() && r.1@ == "audio/wav"@,
            },
    {
        match &context.input {
            Some(input) => (input.data.clone(), input.content_type.clone()),
            None => (minimal_wav(), "audio/wav".to_owned()),
        }
    }

    /// Get the dedicated endpoint for the voices list and speech synthesis.
    pub fn get_tts_endpoint(region: &str, cloud: Cloud) -> (r: String)
        ensures
            r@ == speech_host("tts"@, region@, cloud),
    {
        dedicated("tts", region, cloud)
    }

    /// Get the dedicated endpoint for the speech recognition REST API.
    pub fn get_stt_endpoint(region: &str, cloud: Cloud) -> (r: String)
        ensures
            r@ == speech_host("stt"@, region@, cloud),
    {
        dedicated("stt", region, cloud)
    }
}

pub const SSML: &'static str =
    "<speak version='1.0' xmlns='http://www.w3.org/2001/10/synthesis' xml:lang='en-US'><voice name='en-US-JennyNeural'>Hello, this is a connectivity test.</voice></speak>";

pub const TRANSCRIBE_PATH: &'static str =
    "/speechtotext/transcriptions:transcribe?api-version=2024-11-15";

pub const RECOGNITION_PATH: &'static str =
    "/speech/recognition/conversation/cognitiveservices/v1?language=en-US&format=simple";

pub const TRANSCRIBE_DEFINITION: &'static str = "{\"locales\":[\"en-US\"]}";

/// The smallest number of bytes that a token has.
pub const MIN_TOKEN_LEN: usize = 100;

/// The audio that a scenario sends with its content type: the input where
/// there is one, else the built-in sample.
pub open spec fn audio_of(context: TestContextView) -> (Seq<u8>, Seq<char>) {
    match context.input {
        Some(input) => (input.data, input.content_type),
        None => (minimal_wav_bytes(), "audio/wav"@),
    }
}

/// The request of the probe of the endpoint: a GET without credentials.
pub open spec fn endpoint_request(context: TestContextView) -> ScenarioRequestView {
    ScenarioRequestView {
        method: Method::Get,
        url: endpoint_text(context.region, context.cloud, context.endpoint),
        headers: Seq::empty(),
        body: BodyView::Empty,
    }
}

/// The request for the voices: a GET to the dedicated endpoint of speech
/// synthesis, with the credentials.
pub open spec fn voices_request(context: TestContextView) -> ScenarioRequestView {
    ScenarioRequestView {
        method: Method::Get,
        url: speech_host("tts"@, context.region, context.cloud)
            + "/cognitiveservices/voices/list"@,
        headers: with_credentials(Seq::empty(), context.credentials),
        body: BodyView::Empty,
    }
}

/// The request that exchanges the credentials for a token: an empty POST to
/// the token endpoint.
pub open spec fn token_request(context: TestContextView) -> ScenarioRequestView {
    ScenarioRequestView {
        method: Method::Post,
        url: context.cloud.token_endpoint_for_text(context.region, context.endpoint),
        headers: with_credentials(seq![("Content-Length"@, "0"@)], context.credentials),
        body: BodyView::Empty,
    }
}

/// The request of the fast transcription: a form with the definition of the
/// task and the audio.
pub open spec fn transcribe_request(context: TestContextView) -> ScenarioRequestView {
    ScenarioRequestView {
        method: Method::Post,
        url: endpoint_text(context.region, context.cloud, context.endpoint) + TRANSCRIBE_PATH@,
        headers: with_credentials(Seq::empty(), context.credentials),
        body: BodyView::Multipart(
            seq![
                PartView::Text { name: "definition"@, value: TRANSCRIBE_DEFINITION@ },
                PartView::File {
                    name: "audio"@,
                    data: audio_of(context).0,
                    file_name: "audio.wav"@,
                    content_type: audio_of(context).1,
                },
            ],
        ),
    }
}

/// The address of the recognition: below the custom endpoint where one is
/// set, else at the dedicated endpoint of speech recognition.
pub open spec fn recognition_url(context: TestContextView) -> Seq<char> {
    match context.endpoint {
        Some(custom) => trim_end(custom, '/') + "/speechtotext"@ + RECOGNITION_PATH@,
        None => speech_host("stt"@, context.region, context.cloud) + RECOGNITION_PATH@,
    }
}

/// The request of the recognition: a POST of the audio.
pub open spec fn recognition_request(context: TestContextView) -> ScenarioRequestView {
    ScenarioRequestView {
        method: Method::Post,
        url: recognition_url(context),
        headers: with_credentials(
            seq![("Content-Type"@, audio_of(context).1)],
            context.credentials,
        ),
        body: BodyView::Bytes(audio_of(context).0),
    }
}

/// The address of the synthesis: below the custom endpoint where one is
/// set, else at the dedicated endpoint of speech synthesis.
pub open spec fn synthesis_url(context: TestContextView) -> Seq<char> {
    match context.endpoint {
        Some(custom) => trim_end(custom, '/') + "/texttospeech/cognitiveservices/v1"@,
        None => speech_host("tts"@, context.region, context.cloud) + "/cognitiveservices/v1"@,
    }
}

/// The request of the synthesis: a POST of a short text in SSML.
pub open spec fn synthesis_request(context: TestContextView) -> ScenarioRequestView {
    ScenarioRequestView {
        method: Method::Post,
        url: synthesis_url(context),
        headers: with_credentials(
            seq![
                ("Content-Type"@, "application/ssml+xml"@),
                ("X-Microsoft-OutputFormat"@, "audio-16khz-128kbitrate-mono-mp3"@),
                ("User-Agent"@, "azure-aitoolsconnect/0.1.0"@),
            ],
            context.credentials,
        ),
        body: BodyView::Text(SSML@),
    }
}

/// What the reply to the request for the voices comes to, given the number
/// of voices that was read from it.
pub open spec fn voices_outcome(reply: HttpReplyView, parsed: ParsedView<usize>) -> OutcomeView {
    if reply.succeeded() {
        match parsed {
            ParsedView::Value(n) => counted("Retrieved "@, n as nat, " voices"@),
            ParsedView::Invalid(m) => crate::services::exchange::unparsed(reply->Response_0, m),
        }
    } else {
        reply.refusal()
    }
}

/// The view of a count that was read.
pub open spec fn count_view(parsed: Parsed<usize>) -> ParsedView<usize> {
    match parsed {
        Parsed::Value(n) => ParsedView::Value(n),
        Parsed::Invalid(m) => ParsedView::Invalid(m@),
    }
}

/// What the reply to the token exchange comes to: a body of more than a
/// hundred bytes is a token.
pub open spec fn token_outcome(reply: HttpReplyView) -> OutcomeView {
    if reply.succeeded() {
        let response = reply->Response_0;
        match response.body {
            Ok(_) => if response.body_len > MIN_TOKEN_LEN {
                counted("Token received ("@, response.body_len as nat, " chars)"@)
            } else {
                response.failure("Invalid token received"@)
            },
            Err(e) => response.failure("Failed to read token: "@ + e),
        }
    } else {
        reply.refusal()
    }
}

/// Whether the body of a status 400 shows that the audio was looked at, so
/// that the endpoint counts as responsive.
pub open spec fn audio_was_checked(body: Seq<char>, with_usp: bool) -> bool {
    contains(body, "audio"@) || contains(body, "InvalidRequest"@) || contains(body, "duration"@)
        || (with_usp && contains(body, "USP"@))
}

/// What the reply to a speech-to-text request comes to. A success shows
/// the size of the result. A status 400 that speaks of the audio is a
/// success too: the endpoint has answered.
pub open spec fn speech_to_text_outcome(
    reply: HttpReplyView,
    before: Seq<char>,
    with_usp: bool,
) -> OutcomeView {
    match reply {
        HttpReplyView::Failed(m) => crate::services::exchange::request_failed(m),
        HttpReplyView::Response(r) => if r.succeeded() {
            counted(before, r.body_len as nat, " chars"@)
        } else if r.status == 400 {
            if audio_was_checked(r.text(), with_usp) {
                OutcomeView::Passed(
                    "Endpoint responsive (audio validation: HTTP "@ + r.status_text + ")"@,
                )
            } else {
                r.raw_refusal()
            }
        } else {
            r.refusal()
        },
    }
}

/// What the reply to the synthesis comes to: the size of the audio.
pub open spec fn synthesis_outcome(reply: HttpReplyView) -> OutcomeView {
    if reply.succeeded() {
        counted("Audio synthesized: "@, reply->Response_0.body_len as nat, " bytes"@)
    } else {
        reply.refusal()
    }
}

fn judge_speech_to_text(reply: &HttpReply, before: &str, with_usp: bool) -> (r: Outcome)
    ensures
        r@ == speech_to_text_outcome(reply@, before@, with_usp),
{
    match reply {
        HttpReply::Failed(m) => {
            let mut error = "Request failed: ".to_owned();
            error.append(m.as_str());
            Outcome::Failed { status: 0, error }
        },
        HttpReply::Response(r) => {
            if r.succeeded() {
                passed_count(before, r.body_len, " chars")
            } else if r.status == 400 {
                let body = r.text();
                if str_contains(body, "audio") || str_contains(body, "InvalidRequest")
                    || str_contains(body, "duration") || (with_usp && str_contains(body, "USP")) {
                    let mut details = "Endpoint responsive (audio validation: HTTP ".to_owned();
                    details.append(r.status_text.as_str());
                    details.append(")");
                    Outcome::Passed(details)
                } else {
                    r.raw_refusal()
                }
            } else {
                r.refusal()
            }
        },
    }
}

impl SpeechService {
    fn endpoint(context: &TestContext) -> (r: String)
        ensures
            r@ == endpoint_text(context@.region, context@.cloud, context@.endpoint),
    {
        SpeechService::new().get_endpoint(
            context.region.as_str(),
            context.cloud,
            match &context.endpoint {
                Some(e) => Some(e.as_str()),
                None => None,
            },
        )
    }

    /// The request of the probe of the endpoint.
    pub fn endpoint_check_request(context: &TestContext) -> (r: ScenarioRequest)
        ensures
            r@ == endpoint_request(context@),
    {
        ScenarioRequest {
            method: Method::Get,
            url: SpeechService::endpoint(context),
            headers: no_headers(),
            body: Body::Empty,
        }
    }

    /// The request for the voices.
    pub fn voices_list_request(context: &TestContext) -> (r: ScenarioRequest)
        ensures
            r@ == voices_request(context@),
    {
        let mut url = SpeechService::get_tts_endpoint(context.region.as_str(), context.cloud);
        url.append("/cognitiveservices/voices/list");
        let mut headers = no_headers();
        context.credentials.apply_to_request(&mut headers);
        ScenarioRequest { method: Method::Get, url, headers, body: Body::Empty }
    }

    /// The request of the token exchange.
    pub fn token_exchange_request(context: &TestContext) -> (r: ScenarioRequest)
        ensures
            r@ == token_request(context@),
    {
        let url = context.cloud.cognitive_token_endpoint_for(
            context.region.as_str(),
            match &context.endpoint {
                Some(e) => Some(e.as_str()),
                None => None,
            },
        );
        let mut headers = no_headers();
        push_header(&mut headers, "Content-Length", "0");
        context.credentials.apply_to_request(&mut headers);
        assert(crate::auth::fields_view(headers@) =~= with_credentials(
            seq![("Content-Length"@, "0"@)],
            context@.credentials,
        ));
        ScenarioRequest { method: Method::Post, url, headers, body: Body::Empty }
    }

    /// The request of the fast transcription.
    pub fn stt_short_request(context: &TestContext) -> (r: ScenarioRequest)
        ensures
            r@ == transcribe_request(context@),
    {
        let mut url = SpeechService::endpoint(context);
        url.append(TRANSCRIBE_PATH);
        let (audio, content_type) = SpeechService::get_audio_data(context);
        let mut parts: Vec<Part> = Vec::new();
        parts.push(
            Part::Text { name: "definition".to_owned(), value: TRANSCRIBE_DEFINITION.to_owned() },
        );
        parts.push(
            Part::File {
                name: "audio".to_owned(),
                data: audio,
                file_name: "audio.wav".to_owned(),
                content_type,
            },
        );
        let mut headers = no_headers();
        context.credentials.apply_to_request(&mut headers);
        let r = ScenarioRequest { method: Method::Post, url, headers, body: Body::Multipart(parts) };
        assert(r@.body->Multipart_0 =~= transcribe_request(context@).body->Multipart_0);
        r
    }

    /// The request of the recognition.
    pub fn stt_rest_request(context: &TestContext) -> (r: ScenarioRequest)
        ensures
            r@ == recognition_request(context@),
    {
        let mut url = match &context.endpoint {
            Some(custom) => {
                let mut u = str_trim_end(custom.as_str(), '/');
                u.append("/speechtotext");
                u
            },
            None => SpeechService::get_stt_endpoint(context.region.as_str(), context.cloud),
        };
        url.append(RECOGNITION_PATH);
        let (audio, content_type) = SpeechService::get_audio_data(context);
        let mut headers = no_headers();
        push_header(&mut headers, "Content-Type", content_type.as_str());
        context.credentials.apply_to_request(&mut headers);
        assert(crate::auth::fields_view(headers@) =~= with_credentials(
            seq![("Content-Type"@, audio_of(context@).1)],
            context@.credentials,
        ));
        ScenarioRequest { method: Method::Post, url, headers, body: Body::Bytes(audio) }
    }

    /// The request of the synthesis.
    pub fn tts_request(context: &TestContext) -> (r: ScenarioRequest)
        ensures
            r@ == synthesis_request(context@),
    {
        let url = match &context.endpoint {
            Some(custom) => {
                let mut u = str_trim_end(custom.as_str(), '/');
                u.append("/texttospeech/cognitiveservices/v1");
                u
            },
            None => {
                let mut u = SpeechService::get_tts_endpoint(
                    context.region.as_str(),
                    context.cloud,
                );
                u.append("/cognitiveservices/v1");
                u
            },
        };
        let mut headers = no_headers();
        push_header(&mut headers, "Content-Type", "application/ssml+xml");
        push_header(&mut headers, "X-Microsoft-OutputFormat", "audio-16khz-128kbitrate-mono-mp3");
        push_header(&mut headers, "User-Agent", "azure-aitoolsconnect/0.1.0");
        context.credentials.apply_to_request(&mut headers);
        assert(crate::auth::fields_view(headers@) =~= synthesis_request(context@).headers);
        ScenarioRequest { method: Method::Post, url, headers, body: Body::Text(SSML.to_owned()) }
    }

    /// Judges the probe of the endpoint.
    pub fn test_endpoint_check(reply: &HttpReply) -> (r: Outcome)
        ensures
            r@ == endpoint_outcome(reply@),
    {
        endpoint_check(reply)
    }

    /// Judges the reply to the request for the voices. `parsed` is what
    /// was read from the body of a successful reply: the number of voices.
    pub fn test_voices_list(reply: &HttpReply, parsed: Parsed<usize>) -> (r: Outcome)
        ensures
            r@ == voices_outcome(reply@, count_view(parsed)),
    {
        let response = match reply.success() {
            Ok(r) => r,
            Err(o) => {
                return o;
            },
        };
        match parsed {
            Parsed::Value(n) => passed_count("Retrieved ", n, " voices"),
            Parsed::Invalid(m) => response.unparsed(m.as_str()),
        }
    }

    /// Judges the reply to the token exchange.
    pub fn test_token_exchange(reply: &HttpReply) -> (r: Outcome)
        ensures
            r@ == token_outcome(reply@),
    {
        let response = match reply.success() {
            Ok(r) => r,
            Err(o) => {
                return o;
            },
        };
        match &response.body {
            Ok(_) => {
                if response.body_len > MIN_TOKEN_LEN {
                    passed_count("Token received (", response.body_len, " chars)")
                } else {
                    response.failure("Invalid token received")
                }
            },
            Err(e) => {
                let mut error = "Failed to read token: ".to_owned();
                error.append(e.as_str());
                response.failure(error.as_str())
            },
        }
    }

    /// Judges the reply to the fast transcription.
    pub fn test_stt_short(reply: &HttpReply) -> (r: Outcome)
        ensures
            r@ == speech_to_text_outcome(reply@, "Transcription received: "@, false),
    {
        judge_speech_to_text(reply, "Transcription received: ", false)
    }

    /// Judges the reply to the recognition.
    pub fn test_stt_rest(reply: &HttpReply) -> (r: Outcome)
        ensures
            r@ == speech_to_text_outcome(reply@, "Recognition result: "@, true),
    {
        judge_speech_to_text(reply, "Recognition result: ", true)
    }

    /// Judges the reply to the synthesis.
    pub fn test_tts(reply: &HttpReply) -> (r: Outcome)
        ensures
            r@ == synthesis_outcome(reply@),
    {
        match reply.success() {
            Ok(response) => passed_count("Audio synthesized: ", response.body_len, " bytes"),
            Err(o) => o,
        }
    }
}

} // verus!
