//! Translator Service: detection and translation of text.

use crate::config::Cloud;
use crate::json::{items_view, member, members_view, named, Json, JsonView, Member};
use crate::services::{
    offer, offered, scenarios_view, AzureService, InputType, Outcome, OutcomeView, TestContext,
    TestContextView, TestScenario, TestScenarioView,
};
use crate::services::exchange::{
    counted, endpoint_check, endpoint_outcome, no_headers, passed_count, passed_text, push_header,
    with_credentials, Body, BodyView, HttpReply, HttpReplyView, Method, Parsed, ParsedView,
    ScenarioRequest, ScenarioRequestView,
};
use crate::text::{prefix, str_prefix, str_trim_end, trim_end};
use vstd::prelude::*;
use vstd::string::*;

verus! {

/// The scenarios that the service offers, in the order in which they run.
pub open spec fn scenarios() -> Seq<TestScenarioView> {
    seq![
        offered("endpoint_check"@, "Endpoint Reachability"@, "Verify endpoint DNS, TLS, and connectivity"@, None),
        offered("languages"@, "Get Languages"@, "Get list of supported languages (no auth required)"@, None),
        offered("detect"@, "Detect Language"@, "Detect language of text"@, Some(InputType::Text)),
        offered("translate"@, "Translate Text"@, "Translate text between languages"@, Some(InputType::Text)),
    ]
}

/// The base endpoint: below the custom endpoint where one is given, else
/// the endpoint of the translator in the cloud, which no region changes.
pub open spec fn endpoint_text(cloud: Cloud, custom_endpoint: Option<Seq<char>>) -> Seq<char> {
    match custom_endpoint {
        Some(e) => trim_end(e, '/') + "/translator/text/v3.0"@,
        None => match cloud {
            Cloud::Global => "https://api.cognitive.microsofttranslator.com"@,
            Cloud::China => "https://api.translator.azure.cn"@,
        },
    }
}

/// Translator Service implementation.
#[derive(Debug, Clone, Copy)]
pub struct TranslatorService;

impl TranslatorService {
    pub fn new() -> (r: TranslatorService) {
        TranslatorService
    }
}

impl Default for TranslatorService {
    fn default() -> (r: TranslatorService) {
        TranslatorService::new()
    }
}

impl AzureService for TranslatorService {
    fn name(&self) -> (r: &'static str)
        ensures
            r@ == "translator"@,
    {
        "translator"
    }

    fn display_name(&self) -> (r: &'static str)
        ensures
            r@ == "Translator"@,
    {
        "Translator"
    }

    /// Below the custom endpoint where one is given, else the endpoint of
    /// the translator in the cloud.
    fn get_endpoint(&self, region: &str, cloud: Cloud, custom_endpoint: Option<&str>) -> (r: String)
        ensures
            r@ == endpoint_text(
                cloud,
                match custom_endpoint {
                    Some(e) => Some(e@),
                    None => None,
                },
            ),
    {
        match custom_endpoint {
            Some(endpoint) => {
                let mut r = str_trim_end(endpoint, '/');
                r.append("/translator/text/v3.0");
                r
            },
            None => match cloud {
                Cloud::Global => "https://api.cognitive.microsofttranslator.com".to_owned(),
                Cloud::China => "https://api.translator.azure.cn".to_owned(),
            },
        }
    }

    fn list_scenarios(&self) -> (r: Vec<TestScenario>)
        ensures
            scenarios_view(r@) == scenarios(),
    {
        let mut r: Vec<TestScenario> = Vec::new();
        r.push(offer("endpoint_check", "Endpoint Reachability", "Verify endpoint DNS, TLS, and connectivity", None));
        r.push(offer("languages", "Get Languages", "Get list of supported languages (no auth required)", None));
        r.push(offer("detect", "Detect Language", "Detect language of text", Some(InputType::Text)));
        r.push(offer("translate", "Translate Text", "Translate text between languages", Some(InputType::Text)));
        assert(scenarios_view(r@) =~= scenarios());
        r
    }
}

pub const SAMPLE_DETECT: &'static str = "Hello, how are you today?";

pub const SAMPLE_TRANSLATE: &'static str = "Hello, this is a connectivity test.";

/// The number of characters of a translation that are shown.
pub const SHOWN_CHARS: usize = 50;

/// A translation as the service returns it.
#[derive(Debug)]
pub struct Translation {
    /// The language that was translated to.
    pub to: String,
    /// The translated text.
    pub text: String,
}

/// The text that a scenario works on: the text of the input where there is
/// one, else the sample.
pub open spec fn text_or(context: TestContextView, sample: Seq<char>) -> Seq<char> {
    match context.input {
        Some(input) => match input.text {
            Some(t) => t,
            None => sample,
        },
        None => sample,
    }
}

/// The body of a request: one text.
pub open spec fn texts_json(text: Seq<char>) -> JsonView {
    JsonView::Array(seq![JsonView::Object(seq![named("Text"@, JsonView::Text(text))])])
}

/// The request of the probe of the endpoint: a GET without credentials.
pub open spec fn endpoint_request(context: TestContextView) -> ScenarioRequestView {
    ScenarioRequestView {
        method: Method::Get,
        url: endpoint_text(context.cloud, context.endpoint),
        headers: Seq::empty(),
        body: BodyView::Empty,
    }
}

/// The request for the languages: a GET to the endpoint of the cloud,
/// whatever custom endpoint is set, without credentials.
pub open spec fn languages_request(context: TestContextView) -> ScenarioRequestView {
    ScenarioRequestView {
        method: Method::Get,
        url: match context.cloud {
            Cloud::Global => "https://api.cognitive.microsofttranslator.com/languages?api-version=3.0"@,
            Cloud::China => "https://api.translator.azure.cn/languages?api-version=3.0"@,
        },
        headers: Seq::empty(),
        body: BodyView::Empty,
    }
}

/// A POST of one text to a path below the endpoint, with the credentials
/// and the region.
pub open spec fn text_request(context: TestContextView, path: Seq<char>, sample: Seq<char>) -> ScenarioRequestView {
    ScenarioRequestView {
        method: Method::Post,
        url: endpoint_text(context.cloud, context.endpoint) + path,
        headers: with_credentials(
            seq![("Content-Type"@, "application/json"@)],
            context.credentials,
        ).push(("Ocp-Apim-Subscription-Region"@, context.region)),
        body: BodyView::Json(texts_json(text_or(context, sample))),
    }
}

/// What the body of a successful reply to the request for the languages
/// comes to: the number of languages for translation that it names, zero
/// where it names none.
pub open spec fn languages_judgement(body: JsonView) -> OutcomeView {
    counted(
        Seq::empty(),
        match body.member("translation"@) {
            Some(t) => match t.size() {
                Some(n) => n,
                None => 0,
            },
            None => 0,
        },
        " translation languages available"@,
    )
}

/// What the reply to the request for the languages comes to: the number of
/// languages for translation that it names.
pub open spec fn languages_outcome(reply: HttpReplyView) -> OutcomeView {
    if reply.succeeded() {
        languages_judgement(reply->Response_0.json())
    } else {
        reply.refusal()
    }
}

/// What the reply to a detection comes to, given the language of the first
/// result that was read from it.
pub open spec fn detect_outcome(reply: HttpReplyView, parsed: ParsedView<Option<Seq<char>>>) -> OutcomeView {
    if reply.succeeded() {
        let response = reply->Response_0;
        match parsed {
            ParsedView::Value(Some(language)) => OutcomeView::Passed(
                "Detected language: "@ + language,
            ),
            ParsedView::Value(None) => response.failure("Empty response"@),
            ParsedView::Invalid(m) => crate::services::exchange::unparsed(response, m),
        }
    } else {
        reply.refusal()
    }
}

/// What the reply to a translation comes to, given the first translation
/// of the first result that was read from it: `None` for no result, `Some`
/// of `None` for a result without translations.
pub open spec fn translate_outcome(
    reply: HttpReplyView,
    parsed: ParsedView<Option<Option<(Seq<char>, Seq<char>)>>>,
) -> OutcomeView {
    if reply.succeeded() {
        let response = reply->Response_0;
        match parsed {
            ParsedView::Value(Some(Some((to, text)))) => OutcomeView::Passed(
                "Translated to "@ + to + ": "@ + prefix(text, SHOWN_CHARS as nat),
            ),
            ParsedView::Value(Some(None)) => response.failure("No translations returned"@),
            ParsedView::Value(None) => response.failure("Empty response"@),
            ParsedView::Invalid(m) => crate::services::exchange::unparsed(response, m),
        }
    } else {
        reply.refusal()
    }
}

/// The view of what was read from a detection.
pub open spec fn detected_view(parsed: Parsed<Option<String>>) -> ParsedView<Option<Seq<char>>> {
    match parsed {
        Parsed::Value(Some(l)) => ParsedView::Value(Some(l@)),
        Parsed::Value(None) => ParsedView::Value(None),
        Parsed::Invalid(m) => ParsedView::Invalid(m@),
    }
}

/// The view of what was read from a translation.
pub open spec fn translated_view(parsed: Parsed<Option<Option<Translation>>>) -> ParsedView<
    Option<Option<(Seq<char>, Seq<char>)>>,
> {
    match parsed {
        Parsed::Value(Some(Some(t))) => ParsedView::Value(Some(Some((t.to@, t.text@)))),
        Parsed::Value(Some(None)) => ParsedView::Value(Some(None)),
        Parsed::Value(None) => ParsedView::Value(None),
        Parsed::Invalid(m) => ParsedView::Invalid(m@),
    }
}

fn texts_body(text: &str) -> (r: Json)
    ensures
        r@ == texts_json(text@),
{
    let mut m: Vec<Member> = Vec::new();
    m.push(member("Text", Json::text(text)));
    assert(members_view(m@) =~= seq![named("Text"@, JsonView::Text(text@))]);
    let mut items: Vec<Json> = Vec::new();
    items.push(Json::object(m));
    assert(items_view(items@) =~= texts_json(text@)->Array_0);
    Json::array(items)
}

impl TranslatorService {
    fn endpoint(context: &TestContext) -> (r: String)
        ensures
            r@ == endpoint_text(context@.cloud, context@.endpoint),
    {
        TranslatorService::new().get_endpoint(
            context.region.as_str(),
            context.cloud,
            match &context.endpoint {
                Some(e) => Some(e.as_str()),
                None => None,
            },
        )
    }

    fn text_request(context: &TestContext, path: &str, sample: &str) -> (r: ScenarioRequest)
        ensures
            r@ == text_request(context@, path@, sample@),
    {
        let mut url = TranslatorService::endpoint(context);
        url.append(path);
        let text = match &context.input {
            Some(input) => match &input.text {
                Some(t) => t.clone(),
                None => sample.to_owned(),
            },
            None => sample.to_owned(),
        };
        let mut headers = no_headers();
        push_header(&mut headers, "Content-Type", "application/json");
        context.credentials.apply_to_request(&mut headers);
        push_header(&mut headers, "Ocp-Apim-Subscription-Region", context.region.as_str());
        assert(crate::auth::fields_view(headers@) =~= with_credentials(
            seq![("Content-Type"@, "application/json"@)],
            context@.credentials,
        ).push(("Ocp-Apim-Subscription-Region"@, context@.region)));
        ScenarioRequest {
            method: Method::Post,
            url,
            headers,
            body: Body::Json(texts_body(text.as_str())),
        }
    }

    /// The request of the probe of the endpoint.
    pub fn endpoint_check_request(context: &TestContext) -> (r: ScenarioRequest)
        ensures
            r@ == endpoint_request(context@),
    {
        ScenarioRequest {
            method: Method::Get,
            url: TranslatorService::endpoint(context),
            headers: no_headers(),
            body: Body::Empty,
        }
    }

    /// The request for the languages. They are public: the custom endpoint
    /// is left aside, and no credentials are sent.
    pub fn languages_request(context: &TestContext) -> (r: ScenarioRequest)
        ensures
            r@ == languages_request(context@),
    {
        let url = match context.cloud {
            Cloud::Global => "https://api.cognitive.microsofttranslator.com/languages?api-version=3.0",
            Cloud::China => "https://api.translator.azure.cn/languages?api-version=3.0",
        };
        ScenarioRequest {
            method: Method::Get,
            url: url.to_owned(),
            headers: no_headers(),
            body: Body::Empty,
        }
    }

    /// The request of the detection scenario.
    pub fn detect_request(context: &TestContext) -> (r: ScenarioRequest)
        ensures
            r@ == text_request(context@, "/detect?api-version=3.0"@, SAMPLE_DETECT@),
    {
        TranslatorService::text_request(context, "/detect?api-version=3.0", SAMPLE_DETECT)
    }

    /// The request of the translation scenario; it translates to Spanish.
    pub fn translate_request(context: &TestContext) -> (r: ScenarioRequest)
        ensures
            r@ == text_request(context@, "/translate?api-version=3.0&to=es"@, SAMPLE_TRANSLATE@),
    {
        TranslatorService::text_request(
            context,
            "/translate?api-version=3.0&to=es",
            SAMPLE_TRANSLATE,
        )
    }

    /// Judges the probe of the endpoint.
    pub fn test_endpoint_check(reply: &HttpReply) -> (r: Outcome)
        ensures
            r@ == endpoint_outcome(reply@),
    {
        endpoint_check(reply)
    }

    /// Judges the reply to the request for the languages.
    pub fn test_languages(reply: &HttpReply) -> (r: Outcome)
        ensures
            r@ == languages_outcome(reply@),
    {
        match reply.success() {
            Ok(response) => TranslatorService::languages_of(&response.json()),
            Err(o) => o,
        }
    }

    /// Judges the body of a successful reply to the request for the
    /// languages: it passes with the number of members of `translation`.
    pub fn languages_of(body: &Json) -> (r: Outcome)
        ensures
            r@ == languages_judgement(body@),
    {
        let n = match body.get("translation") {
            Some(t) => match t.object_len() {
                Some(n) => n,
                None => 0,
            },
            None => 0,
        };
        proof {
            reveal_strlit("");
            assert(""@ =~= Seq::<char>::empty());
        }
        passed_count("", n, " translation languages available")
    }

    /// Judges the reply to a detection. `parsed` is what was read from the
    /// body of a successful reply: the language of its first result.
    pub fn test_detect(reply: &HttpReply, parsed: Parsed<Option<String>>) -> (r: Outcome)
        ensures
            r@ == detect_outcome(reply@, detected_view(parsed)),
    {
        let response = match reply.success() {
            Ok(r) => r,
            Err(o) => {
                return o;
            },
        };
        match parsed {
            Parsed::Value(Some(language)) => passed_text("Detected language: ", language.as_str()),
            Parsed::Value(None) => response.failure("Empty response"),
            Parsed::Invalid(m) => response.unparsed(m.as_str()),
        }
    }

    /// Judges the reply to a translation. `parsed` is what was read from
    /// the body of a successful reply: the first translation of its first
    /// result. Of the translated text the first fifty characters are
    /// shown.
    pub fn test_translate(reply: &HttpReply, parsed: Parsed<Option<Option<Translation>>>) -> (r:
        Outcome)
        ensures
            r@ == translate_outcome(reply@, translated_view(parsed)),
    {
        let response = match reply.success() {
            Ok(r) => r,
            Err(o) => {
                return o;
            },
        };
        match parsed {
            Parsed::Value(Some(Some(t))) => {
                let mut details = "Translated to ".to_owned();
                details.append(t.to.as_str());
                details.append(": ");
                details.append(str_prefix(t.text.as_str(), SHOWN_CHARS).as_str());
                Outcome::Passed(details)
            },
            Parsed::Value(Some(None)) => response.failure("No translations returned"),
            Parsed::Value(None) => response.failure("Empty response"),
            Parsed::Invalid(m) => response.unparsed(m.as_str()),
        }
    }
}

} // verus!
