//! Language Service: sentiment, entities, key phrases and summaries of text.

use crate::config::Cloud;
use crate::json::{items_view, member, members_view, named, Json, JsonView, Member};
use crate::services::{
    offer, offered, regional, regional_endpoint, scenarios_view, AzureService, InputType, Outcome,
    OutcomeView, TestContext, TestContextView, TestScenario, TestScenarioView,
};
use crate::services::exchange::{
    no_headers, passed_count, passed_text, push_header, with_credentials, Body, BodyView,
    HeaderValue, HttpReply, HttpReplyView, Method, ScenarioRequest, ScenarioRequestView,
};
use vstd::prelude::*;
use vstd::string::*;

verus! {

/// The scenarios that the service offers, in the order in which they run.
pub open spec fn scenarios() -> Seq<TestScenarioView> {
    seq![
        offered("sentiment"@, "Sentiment Analysis"@, "Analyze sentiment of text"@, Some(InputType::Text)),
        offered("language_detection"@, "Language Detection"@, "Detect language of text"@, Some(InputType::Text)),
        offered("entities"@, "Named Entity Recognition"@, "Extract named entities from text"@, Some(InputType::Text)),
        offered("key_phrases"@, "Key Phrase Extraction"@, "Extract key phrases from text"@, Some(InputType::Text)),
        offered("pii_detection"@, "PII Detection"@, "Detect personally identifiable information"@, Some(InputType::Text)),
        offered("entity_linking"@, "Entity Linking"@, "Link entities to Wikipedia knowledge base"@, Some(InputType::Text)),
        offered("summarization"@, "Summarization"@, "Generate abstractive summary of text"@, Some(InputType::Text)),
    ]
}

/// The base endpoint: the custom endpoint as it is where one is given, else
/// the regional endpoint of the cloud.
pub open spec fn endpoint_text(
    region: Seq<char>,
    cloud: Cloud,
    custom_endpoint: Option<Seq<char>>,
) -> Seq<char> {
    match custom_endpoint {
        Some(e) => e,
        None => regional_endpoint(region, cloud),
    }
}

/// Language Service implementation.
#[derive(Debug, Clone, Copy)]
pub struct LanguageService;

impl LanguageService {
    pub fn new() -> (r: LanguageService) {
        LanguageService
    }
}

impl Default for LanguageService {
    fn default() -> (r: LanguageService) {
        LanguageService::new()
    }
}

impl AzureService for LanguageService {
    fn name(&self) -> (r: &'static str)
        ensures
            r@ == "language"@,
    {
        "language"
    }

    fn display_name(&self) -> (r: &'static str)
        ensures
            r@ == "Language"@,
    {
        "Language"
    }

    /// The custom endpoint as it is where one is given, else the regional
    /// endpoint of the cloud.
    fn get_endpoint(&self, region: &str, cloud: Cloud, custom_endpoint: Option<&str>) -> (r: String)
        ensures
            r@ == endpoint_text(
                region@,
                cloud,
                match custom_endpoint {
                    Some(e) => Some(e@),
                    None => None,
                },
            ),
    {
        match custom_endpoint {
            Some(endpoint) => endpoint.to_owned(),
            None => regional(region, cloud),
        }
    }

    fn list_scenarios(&self) -> (r: Vec<TestScenario>)
        ensures
            scenarios_view(r@) == scenarios(),
    {
        let mut r: Vec<TestScenario> = Vec::new();
        r.push(offer("sentiment", "Sentiment Analysis", "Analyze sentiment of text", Some(InputType::Text)));
        r.push(offer("language_detection", "Language Detection", "Detect language of text", Some(InputType::Text)));
        r.push(offer("entities", "Named Entity Recognition", "Extract named entities from text", Some(InputType::Text)));
        r.push(offer("key_phrases", "Key Phrase Extraction", "Extract key phrases from text", Some(InputType::Text)));
        r.push(offer("pii_detection", "PII Detection", "Detect personally identifiable information", Some(InputType::Text)));
        r.push(offer("entity_linking", "Entity Linking", "Link entities to Wikipedia knowledge base", Some(InputType::Text)));
        r.push(offer("summarization", "Summarization", "Generate abstractive summary of text", Some(InputType::Text)));
        assert(scenarios_view(r@) =~= scenarios());
        r
    }
}

pub const ANALYZE_PATH: &'static str = "/language/:analyze-text?api-version=2023-04-01";

pub const JOBS_PATH: &'static str = "/language/analyze-text/jobs?api-version=2023-04-01";

pub const SAMPLE_TEXT: &'static str =
    "The Azure AI services are excellent. Microsoft has done a great job with their cloud platform. The documentation is comprehensive and the APIs are easy to use. I particularly enjoy working with the cognitive services for natural language processing.";

pub const SAMPLE_PII: &'static str =
    "My name is John Smith and my email is john.smith@example.com. My phone number is 555-123-4567 and my SSN is 123-45-6789.";

pub const SAMPLE_LINKING: &'static str =
    "Microsoft was founded by Bill Gates and Paul Allen in Albuquerque, New Mexico. The company later moved its headquarters to Redmond, Washington.";

pub const SAMPLE_SUMMARY: &'static str =
    "Azure Cognitive Services are cloud-based artificial intelligence services that help developers build cognitive intelligence into applications without having direct AI or data science skills or knowledge. They are available through REST APIs and client library SDKs in popular development languages. Azure Cognitive Services enables developers to easily add cognitive features into their applications with cognitive solutions that can see, hear, speak, and analyze. The catalog of cognitive services covers five main pillars: Vision, Speech, Language, Decision, and Azure OpenAI Service. These services help build applications for many use cases across many industries.";

/// How often the state of a summarization job is asked for.
pub const SUMMARY_ATTEMPTS: u32 = 10;

/// Milliseconds to wait before each time the state of a summarization job
/// is asked for.
pub const SUMMARY_WAIT_MILLIS: u64 = 500;

/// The text that a scenario works on: the text of the input where there is
/// one, else the sample.
pub open spec fn text_or(context: TestContextView, sample: Seq<char>) -> Seq<char> {
    match context.input {
        Some(input) => match input.text {
            Some(t) => t,
            None => sample,
        },
        None => sample,
    }
}

/// The document of a request: the text under the identifier `1`, as
/// English where a language is named.
pub open spec fn document_json(text: Seq<char>, language: bool) -> JsonView {
    JsonView::Object(
        if language {
            seq![
                named("id"@, JsonView::Text("1"@)),
                named("text"@, JsonView::Text(text)),
                named("language"@, JsonView::Text("en"@)),
            ]
        } else {
            seq![named("id"@, JsonView::Text("1"@)), named("text"@, JsonView::Text(text))]
        },
    )
}

/// The input of an analysis: one document.
pub open spec fn input_json(text: Seq<char>, language: bool) -> JsonView {
    JsonView::Object(
        seq![named("documents"@, JsonView::Array(seq![document_json(text, language)]))],
    )
}

/// The body of an analysis of one kind.
pub open spec fn analyze_json(kind: Seq<char>, text: Seq<char>, language: bool) -> JsonView {
    JsonView::Object(
        seq![
            named("kind"@, JsonView::Text(kind)),
            named("analysisInput"@, input_json(text, language)),
        ],
    )
}

/// The body of a summarization job: one task that asks for an abstractive
/// summary of two sentences.
pub open spec fn summary_json(text: Seq<char>) -> JsonView {
    JsonView::Object(
        seq![
            named("displayName"@, JsonView::Text("Summarization Test"@)),
            named("analysisInput"@, input_json(text, true)),
            named(
                "tasks"@,
                JsonView::Array(
                    seq![
                        JsonView::Object(
                            seq![
                                named("kind"@, JsonView::Text("AbstractiveSummarization"@)),
                                named("taskName"@, JsonView::Text("Summarize"@)),
                                named(
                                    "parameters"@,
                                    JsonView::Object(
                                        seq![
                                            named(
                                                "sentenceCount"@,
                                                JsonView::Number(crate::text::decimal(2)),
                                            ),
                                        ],
                                    ),
                                ),
                            ],
                        ),
                    ],
                ),
            ),
        ],
    )
}

/// A POST of JSON to a path below the endpoint of the service, with the
/// credentials.
pub open spec fn json_request(context: TestContextView, path: Seq<char>, body: JsonView) -> ScenarioRequestView {
    ScenarioRequestView {
        method: Method::Post,
        url: endpoint_text(context.region, context.cloud, context.endpoint) + path,
        headers: with_credentials(
            seq![("Content-Type"@, "application/json"@)],
            context.credentials,
        ),
        body: BodyView::Json(body),
    }
}

/// The first document of an analysis, or why there is none.
pub open spec fn first_document(body: JsonView) -> Result<JsonView, Seq<char>> {
    match body.member2("results"@, "documents"@) {
        Some(d) => match d.items() {
            Some(items) => if items.len() > 0 {
                Ok(items[0])
            } else {
                Err("No documents in response"@)
            },
            None => Err("Invalid response format"@),
        },
        None => Err("Invalid response format"@),
    }
}

/// What the body of a successful reply to an analysis comes to: the
/// details that are read from its first document, or the failure under the
/// status of the reply.
pub open spec fn document_judgement(
    status: u16,
    body: JsonView,
    details: spec_fn(JsonView) -> Seq<char>,
) -> OutcomeView {
    match first_document(body) {
        Ok(doc) => OutcomeView::Passed(details(doc)),
        Err(e) => OutcomeView::Failed { status, error: e },
    }
}

/// What the reply to an analysis comes to: what its body comes to where it
/// is a success, else the failure.
pub open spec fn document_outcome(
    reply: HttpReplyView,
    details: spec_fn(JsonView) -> Seq<char>,
) -> OutcomeView {
    if reply.succeeded() {
        let response = reply->Response_0;
        document_judgement(response.status, response.json(), details)
    } else {
        reply.refusal()
    }
}

/// A text under a name, or `unknown`.
pub open spec fn text_or_unknown(text: Option<Seq<char>>) -> Seq<char> {
    match text {
        Some(t) => t,
        None => "unknown"@,
    }
}

/// The details of a sentiment analysis.
pub open spec fn sentiment_details() -> spec_fn(JsonView) -> Seq<char> {
    |doc: JsonView| "Sentiment: "@ + text_or_unknown(doc.text_at("sentiment"@))
}

/// The details of a language detection.
pub open spec fn detection_details() -> spec_fn(JsonView) -> Seq<char> {
    |doc: JsonView|
        "Detected: "@ + text_or_unknown(
            match doc.member("detectedLanguage"@) {
                Some(l) => l.text_at("name"@),
                None => None,
            },
        )
}

/// Details that count the items under a name.
pub open spec fn count_details(before: Seq<char>, name: Seq<char>, after: Seq<char>) -> spec_fn(
    JsonView,
) -> Seq<char> {
    |doc: JsonView| before + crate::text::decimal(doc.count(name)) + after
}

/// The details of a summarization job that has succeeded: the number of
/// summaries of the first document of the first task, where the reply names
/// them.
pub open spec fn summary_details(body: JsonView) -> Seq<char> {
    let tasks = match body.member2("tasks"@, "items"@) {
        Some(t) => t.items(),
        None => None,
    };
    if tasks is Some && tasks->0.len() > 0 {
        let docs = match tasks->0[0].member2("results"@, "documents"@) {
            Some(d) => d.items(),
            None => None,
        };
        if docs is Some && docs->0.len() > 0 {
            "Generated "@ + crate::text::decimal(docs->0[0].count("summaries"@))
                + " summary/summaries"@
        } else {
            "Summarization completed"@
        }
    } else {
        "Summarization completed"@
    }
}

/// What the reply to the submission of a summarization job means.
pub ghost enum JobStartView {
    /// The job was accepted; its state is asked for at this address.
    Accepted(Seq<char>),
    /// The scenario is over.
    Finished(OutcomeView),
}

/// What the reply to the submission of a summarization job means: with
/// status 202 and the address of the operation, the job is followed; any
/// other success is a submission; anything else is a failure.
pub open spec fn summary_start(reply: HttpReplyView) -> JobStartView {
    match reply {
        HttpReplyView::Failed(m) => JobStartView::Finished(
            crate::services::exchange::request_failed(m),
        ),
        HttpReplyView::Response(r) => if r.status == 202 {
            match r.operation_location {
                crate::services::exchange::HeaderValueView::Absent => JobStartView::Finished(
                    r.failure("No operation-location header"@),
                ),
                crate::services::exchange::HeaderValueView::Opaque => JobStartView::Accepted(
                    Seq::empty(),
                ),
                crate::services::exchange::HeaderValueView::Text(url) => JobStartView::Accepted(
                    url,
                ),
            }
        } else if r.succeeded() {
            JobStartView::Finished(OutcomeView::Passed("Summarization submitted"@))
        } else {
            JobStartView::Finished(r.refusal())
        },
    }
}

/// What follows one look at the state of a job.
pub ghost enum JobStepView {
    /// The state is asked for again, after a wait.
    Again { attempts_left: u32, wait_millis: u64 },
    /// The scenario is over.
    Finished(OutcomeView),
}

/// The state of a job as a body names it; empty where it names none.
pub open spec fn job_status(body: JsonView) -> Seq<char> {
    match body.text_at("status"@) {
        Some(s) => s,
        None => Seq::empty(),
    }
}

/// What follows one look at the state of a summarization job, where `body`
/// is the body of the reply if the reply is a success. A job that has
/// succeeded or failed ends the scenario; any other reply, a failure of
/// the request included, asks again while attempts are left; after the
/// last attempt the scenario passes, as the endpoint has answered.
pub open spec fn summary_step_for(attempts_left: u32, body: Option<JsonView>) -> JobStepView {
    if body is Some && job_status(body->0) == "succeeded"@ {
        JobStepView::Finished(OutcomeView::Passed(summary_details(body->0)))
    } else if body is Some && job_status(body->0) == "failed"@ {
        JobStepView::Finished(
            OutcomeView::Failed { status: 200, error: "Summarization job failed"@ },
        )
    } else if attempts_left > 1 {
        JobStepView::Again {
            attempts_left: (attempts_left - 1) as u32,
            wait_millis: SUMMARY_WAIT_MILLIS,
        }
    } else {
        JobStepView::Finished(
            OutcomeView::Passed("Job submitted (polling timeout, but endpoint responsive)"@),
        )
    }
}

/// What follows one look at the state of a summarization job.
pub open spec fn summary_step(attempts_left: u32, reply: HttpReplyView) -> JobStepView {
    summary_step_for(
        attempts_left,
        if reply.succeeded() {
            Some(reply->Response_0.json())
        } else {
            None
        },
    )
}

/// What the reply to the submission of a job means.
#[derive(Debug)]
pub enum JobStart {
    /// The job was accepted; its state is asked for at this address, first
    /// after a wait of `SUMMARY_WAIT_MILLIS`, `SUMMARY_ATTEMPTS` times at
    /// most.
    Accepted(String),
    /// The scenario is over.
    Finished(Outcome),
}

impl View for JobStart {
    type V = JobStartView;

    open spec fn view(&self) -> JobStartView {
        match self {
            JobStart::Accepted(url) => JobStartView::Accepted(url@),
            JobStart::Finished(o) => JobStartView::Finished(o@),
        }
    }
}

/// What follows one look at the state of a job.
#[derive(Debug)]
pub enum JobStep {
    /// The state is asked for again, after a wait.
    Again { attempts_left: u32, wait_millis: u64 },
    /// The scenario is over.
    Finished(Outcome),
}

impl View for JobStep {
    type V = JobStepView;

    open spec fn view(&self) -> JobStepView {
        match self {
            JobStep::Again { attempts_left, wait_millis } => JobStepView::Again {
                attempts_left: *attempts_left,
                wait_millis: *wait_millis,
            },
            JobStep::Finished(o) => JobStepView::Finished(o@),
        }
    }
}

fn first_document_of(body: &Json) -> (r: Result<&Json, &'static str>)
    ensures
        match r {
            Ok(doc) => first_document(body@) == Ok::<JsonView, Seq<char>>(doc@),
            Err(e) => first_document(body@) == Err::<JsonView, Seq<char>>(e@),
        },
{
    match body.get2("results", "documents") {
        Some(d) => match d.as_array() {
            Some(items) => {
                if items.len() > 0 {
                    Ok(&items[0])
                } else {
                    Err("No documents in response")
                }
            },
            None => Err("Invalid response format"),
        },
        None => Err("Invalid response format"),
    }
}

fn document(text: &str, language: bool) -> (r: Json)
    ensures
        r@ == document_json(text@, language),
{
    let mut m: Vec<Member> = Vec::new();
    m.push(member("id", Json::text("1")));
    m.push(member("text", Json::text(text)));
    if language {
        m.push(member("language", Json::text("en")));
    }
    assert(members_view(m@) =~= document_json(text@, language)->Object_0);
    Json::object(m)
}

fn input(text: &str, language: bool) -> (r: Json)
    ensures
        r@ == input_json(text@, language),
{
    let mut docs: Vec<Json> = Vec::new();
    docs.push(document(text, language));
    assert(items_view(docs@) =~= seq![document_json(text@, language)]);
    let mut m: Vec<Member> = Vec::new();
    m.push(member("documents", Json::array(docs)));
    assert(members_view(m@) =~= input_json(text@, language)->Object_0);
    Json::object(m)
}

fn analyze_body(kind: &str, text: &str, language: bool) -> (r: Json)
    ensures
        r@ == analyze_json(kind@, text@, language),
{
    let mut m: Vec<Member> = Vec::new();
    m.push(member("kind", Json::text(kind)));
    m.push(member("analysisInput", input(text, language)));
    assert(members_view(m@) =~= analyze_json(kind@, text@, language)->Object_0);
    Json::object(m)
}

fn summary_body(text: &str) -> (r: Json)
    ensures
        r@ == summary_json(text@),
{
    let mut parameters: Vec<Member> = Vec::new();
    parameters.push(member("sentenceCount", Json::number(2)));
    assert(members_view(parameters@) =~= seq![
        named("sentenceCount"@, JsonView::Number(crate::text::decimal(2))),
    ]);
    let mut task: Vec<Member> = Vec::new();
    task.push(member("kind", Json::text("AbstractiveSummarization")));
    task.push(member("taskName", Json::text("Summarize")));
    task.push(member("parameters", Json::object(parameters)));
    assert(members_view(task@) =~= seq![
        named("kind"@, JsonView::Text("AbstractiveSummarization"@)),
        named("taskName"@, JsonView::Text("Summarize"@)),
        named(
            "parameters"@,
            JsonView::Object(
                seq![named("sentenceCount"@, JsonView::Number(crate::text::decimal(2)))],
            ),
        ),
    ]);
    let mut tasks: Vec<Json> = Vec::new();
    tasks.push(Json::object(task));
    assert(items_view(tasks@) =~= summary_json(text@)->Object_0[2].value->Array_0);
    let mut m: Vec<Member> = Vec::new();
    m.push(member("displayName", Json::text("Summarization Test")));
    m.push(member("analysisInput", input(text, true)));
    m.push(member("tasks", Json::array(tasks)));
    assert(members_view(m@) =~= summary_json(text@)->Object_0);
    Json::object(m)
}

fn post_json(context: &TestContext, path: &str, body: Json) -> (r: ScenarioRequest)
    ensures
        r@ == json_request(context@, path@, body@),
{
    let mut url = LanguageService::new().get_endpoint(
        context.region.as_str(),
        context.cloud,
        match &context.endpoint {
            Some(e) => Some(e.as_str()),
            None => None,
        },
    );
    url.append(path);
    let mut headers = no_headers();
    push_header(&mut headers, "Content-Type", "application/json");
    context.credentials.apply_to_request(&mut headers);
    assert(crate::auth::fields_view(headers@) =~= with_credentials(
        seq![("Content-Type"@, "application/json"@)],
        context@.credentials,
    ));
    ScenarioRequest { method: Method::Post, url, headers, body: Body::Json(body) }
}

fn judge_count(reply: &HttpReply, before: &str, name: &str, after: &str) -> (r: Outcome)
    ensures
        r@ == document_outcome(reply@, count_details(before@, name@, after@)),
{
    match reply.success() {
        Ok(response) => LanguageService::count_of(
            response.status,
            &response.json(),
            before,
            name,
            after,
        ),
        Err(o) => o,
    }
}

impl LanguageService {
    /// The text that the scenarios work on where none of them has its own:
    /// the text of the input, else a sample.
    pub fn get_sample_text(context: &TestContext) -> (r: String)
        ensures
            r@ == text_or(context@, SAMPLE_TEXT@),
    {
        LanguageService::text_for(context, SAMPLE_TEXT)
    }

    /// The text of the input, else the given sample.
    pub fn text_for(context: &TestContext, sample: &str) -> (r: String)
        ensures
            r@ == text_or(context@, sample@),
    {
        match &context.input {
            Some(input) => match &input.text {
                Some(t) => t.clone(),
                None => sample.to_owned(),
            },
            None => sample.to_owned(),
        }
    }

    /// The request of an analysis of a kind: the sample text under the
    /// given kind, as English unless the language is to be detected.
    pub fn analyze_request(context: &TestContext, kind: &str, sample: &str, language: bool) -> (r:
        ScenarioRequest)
        ensures
            r@ == json_request(
                context@,
                ANALYZE_PATH@,
                analyze_json(kind@, text_or(context@, sample@), language),
            ),
    {
        let text = LanguageService::text_for(context, sample);
        post_json(context, ANALYZE_PATH, analyze_body(kind, text.as_str(), language))
    }

    /// The request of the sentiment scenario.
    pub fn sentiment_request(context: &TestContext) -> (r: ScenarioRequest)
        ensures
            r@ == json_request(
                context@,
                ANALYZE_PATH@,
                analyze_json("SentimentAnalysis"@, text_or(context@, SAMPLE_TEXT@), true),
            ),
    {
        LanguageService::analyze_request(context, "SentimentAnalysis", SAMPLE_TEXT, true)
    }

    /// The request of the language-detection scenario; it names no
    /// language.
    pub fn language_detection_request(context: &TestContext) -> (r: ScenarioRequest)
        ensures
            r@ == json_request(
                context@,
                ANALYZE_PATH@,
                analyze_json("LanguageDetection"@, text_or(context@, SAMPLE_TEXT@), false),
            ),
    {
        LanguageService::analyze_request(context, "LanguageDetection", SAMPLE_TEXT, false)
    }

    /// The request of the entity scenario.
    pub fn entities_request(context: &TestContext) -> (r: ScenarioRequest)
        ensures
            r@ == json_request(
                context@,
                ANALYZE_PATH@,
                analyze_json("EntityRecognition"@, text_or(context@, SAMPLE_TEXT@), true),
            ),
    {
        LanguageService::analyze_request(context, "EntityRecognition", SAMPLE_TEXT, true)
    }

    /// The request of the key-phrase scenario.
    pub fn key_phrases_request(context: &TestContext) -> (r: ScenarioRequest)
        ensures
            r@ == json_request(
                context@,
                ANALYZE_PATH@,
                analyze_json("KeyPhraseExtraction"@, text_or(context@, SAMPLE_TEXT@), true),
            ),
    {
        LanguageService::analyze_request(context, "KeyPhraseExtraction", SAMPLE_TEXT, true)
    }

    /// The request of the scenario that looks for personal data.
    pub fn pii_detection_request(context: &TestContext) -> (r: ScenarioRequest)
        ensures
            r@ == json_request(
                context@,
                ANALYZE_PATH@,
                analyze_json("PiiEntityRecognition"@, text_or(context@, SAMPLE_PII@), true),
            ),
    {
        LanguageService::analyze_request(context, "PiiEntityRecognition", SAMPLE_PII, true)
    }

    /// The request of the entity-linking scenario.
    pub fn entity_linking_request(context: &TestContext) -> (r: ScenarioRequest)
        ensures
            r@ == json_request(
                context@,
                ANALYZE_PATH@,
                analyze_json("EntityLinking"@, text_or(context@, SAMPLE_LINKING@), true),
            ),
    {
        LanguageService::analyze_request(context, "EntityLinking", SAMPLE_LINKING, true)
    }

    /// The request that submits the summarization job.
    pub fn summarization_request(context: &TestContext) -> (r: ScenarioRequest)
        ensures
            r@ == json_request(
                context@,
                JOBS_PATH@,
                summary_json(text_or(context@, SAMPLE_SUMMARY@)),
            ),
    {
        let text = LanguageService::text_for(context, SAMPLE_SUMMARY);
        post_json(context, JOBS_PATH, summary_body(text.as_str()))
    }

    /// Judges the body of a successful reply to an analysis whose details
    /// count the items under `name` in the first document.
    pub fn count_of(status: u16, body: &Json, before: &str, name: &str, after: &str) -> (r:
        Outcome)
        ensures
            r@ == document_judgement(status, body@, count_details(before@, name@, after@)),
    {
        match first_document_of(body) {
            Ok(doc) => passed_count(before, doc.count(name), after),
            Err(e) => Outcome::Failed { status, error: e.to_owned() },
        }
    }

    /// Judges the body of a successful reply to a sentiment analysis: the
    /// sentiment of the first document, or `unknown` where it names none.
    pub fn sentiment_of(status: u16, body: &Json) -> (r: Outcome)
        ensures
            r@ == document_judgement(status, body@, sentiment_details()),
    {
        match first_document_of(body) {
            Ok(doc) => {
                let sentiment = match doc.text_at("sentiment") {
                    Some(t) => t,
                    None => "unknown",
                };
                passed_text("Sentiment: ", sentiment)
            },
            Err(e) => Outcome::Failed { status, error: e.to_owned() },
        }
    }

    /// Judges the body of a successful reply to a language detection: the
    /// name of the language of the first document, or `unknown` where it
    /// names none.
    pub fn detection_of(status: u16, body: &Json) -> (r: Outcome)
        ensures
            r@ == document_judgement(status, body@, detection_details()),
    {
        match first_document_of(body) {
            Ok(doc) => {
                let name = match doc.get("detectedLanguage") {
                    Some(l) => l.text_at("name"),
                    None => None,
                };
                let language = match name {
                    Some(t) => t,
                    None => "unknown",
                };
                passed_text("Detected: ", language)
            },
            Err(e) => Outcome::Failed { status, error: e.to_owned() },
        }
    }

    /// Judges the reply to a sentiment analysis.
    pub fn test_sentiment(reply: &HttpReply) -> (r: Outcome)
        ensures
            r@ == document_outcome(reply@, sentiment_details()),
    {
        match reply.success() {
            Ok(response) => LanguageService::sentiment_of(response.status, &response.json()),
            Err(o) => o,
        }
    }

    /// Judges the reply to a language detection.
    pub fn test_language_detection(reply: &HttpReply) -> (r: Outcome)
        ensures
            r@ == document_outcome(reply@, detection_details()),
    {
        match reply.success() {
            Ok(response) => LanguageService::detection_of(response.status, &response.json()),
            Err(o) => o,
        }
    }

    /// Judges the reply to an entity recognition.
    pub fn test_entities(reply: &HttpReply) -> (r: Outcome)
        ensures
            r@ == document_outcome(reply@, count_details("Found "@, "entities"@, " entities"@)),
    {
        judge_count(reply, "Found ", "entities", " entities")
    }

    /// Judges the reply to a key-phrase extraction.
    pub fn test_key_phrases(reply: &HttpReply) -> (r: Outcome)
        ensures
            r@ == document_outcome(
                reply@,
                count_details("Extracted "@, "keyPhrases"@, " key phrases"@),
            ),
    {
        judge_count(reply, "Extracted ", "keyPhrases", " key phrases")
    }

    /// Judges the reply to a search for personal data.
    pub fn test_pii_detection(reply: &HttpReply) -> (r: Outcome)
        ensures
            r@ == document_outcome(
                reply@,
                count_details("Found "@, "entities"@, " PII entities"@),
            ),
    {
        judge_count(reply, "Found ", "entities", " PII entities")
    }

    /// Judges the reply to an entity linking.
    pub fn test_entity_linking(reply: &HttpReply) -> (r: Outcome)
        ensures
            r@ == document_outcome(reply@, count_details("Linked "@, "entities"@, " entities"@)),
    {
        judge_count(reply, "Linked ", "entities", " entities")
    }

    /// Judges the reply to the submission of the summarization job.
    pub fn test_summarization(reply: &HttpReply) -> (r: JobStart)
        ensures
            r@ == summary_start(reply@),
    {
        match reply {
            HttpReply::Failed(m) => {
                let mut error = "Request failed: ".to_owned();
                error.append(m.as_str());
                JobStart::Finished(Outcome::Failed { status: 0, error })
            },
            HttpReply::Response(r) => {
                if r.status == 202 {
                    match &r.operation_location {
                        HeaderValue::Absent => JobStart::Finished(
                            r.failure("No operation-location header"),
                        ),
                        HeaderValue::Opaque => JobStart::Accepted(String::new()),
                        HeaderValue::Text(url) => JobStart::Accepted(url.clone()),
                    }
                } else if r.succeeded() {
                    JobStart::Finished(Outcome::Passed("Summarization submitted".to_owned()))
                } else {
                    JobStart::Finished(r.refusal())
                }
            },
        }
    }

    /// The request that asks for the state of a job.
    pub fn job_request(context: &TestContext, operation_url: &str) -> (r: ScenarioRequest)
        ensures
            r@ == (ScenarioRequestView {
                method: Method::Get,
                url: operation_url@,
                headers: with_credentials(Seq::empty(), context@.credentials),
                body: BodyView::Empty,
            }),
    {
        let mut headers = no_headers();
        context.credentials.apply_to_request(&mut headers);
        ScenarioRequest {
            method: Method::Get,
            url: operation_url.to_owned(),
            headers,
            body: Body::Empty,
        }
    }

    /// Judges one look at the state of the summarization job, with
    /// `attempts_left` looks left, this one included.
    pub fn summarization_step(attempts_left: u32, reply: &HttpReply) -> (r: JobStep)
        ensures
            r@ == summary_step(attempts_left, reply@),
    {
        match reply.success() {
            Ok(response) => {
                let body = response.json();
                LanguageService::summarization_step_of(attempts_left, Some(&body))
            },
            Err(_) => LanguageService::summarization_step_of(attempts_left, None),
        }
    }

    /// Judges one look at the state of the summarization job, where `body`
    /// is the body of the reply if the reply is a success.
    pub fn summarization_step_of(attempts_left: u32, body: Option<&Json>) -> (r: JobStep)
        ensures
            r@ == summary_step_for(
                attempts_left,
                match body {
                    Some(b) => Some(b@),
                    None => None,
                },
            ),
    {
        match body {
            Some(body) => {
                let status = match body.text_at("status") {
                    Some(s) => s,
                    None => {
                        proof {
                            reveal_strlit("");
                            assert(""@ =~= Seq::<char>::empty());
                        }
                        ""
                    },
                };
                if crate::text::str_eq(status, "succeeded") {
                    return JobStep::Finished(LanguageService::summary_outcome(body));
                } else if crate::text::str_eq(status, "failed") {
                    return JobStep::Finished(
                        Outcome::Failed {
                            status: 200,
                            error: "Summarization job failed".to_owned(),
                        },
                    );
                }
            },
            None => {},
        }
        if attempts_left > 1 {
            JobStep::Again { attempts_left: attempts_left - 1, wait_millis: SUMMARY_WAIT_MILLIS }
        } else {
            JobStep::Finished(
                Outcome::Passed(
                    "Job submitted (polling timeout, but endpoint responsive)".to_owned(),
                ),
            )
        }
    }

    /// The success of a summarization job, with the number of summaries of
    /// the first document of the first task where the body names them.
    pub fn summary_outcome(body: &Json) -> (r: Outcome)
        ensures
            r@ == OutcomeView::Passed(summary_details(body@)),
    {
        let tasks = match body.get2("tasks", "items") {
            Some(t) => t.as_array(),
            None => None,
        };
        match tasks {
            Some(tasks) => {
                if tasks.len() > 0 {
                    let docs = match tasks[0].get2("results", "documents") {
                        Some(d) => d.as_array(),
                        None => None,
                    };
                    match docs {
                        Some(docs) => {
                            if docs.len() > 0 {
                                return passed_count(
                                    "Generated ",
                                    docs[0].count("summaries"),
                                    " summary/summaries",
                                );
                            }
                        },
                        None => {},
                    }
                }
            },
            None => {},
        }
        Outcome::Passed("Summarization completed".to_owned())
    }
}

/// A summarization job is asked for its state ten times at most: every
/// look that does not end the scenario leaves one attempt less, and the
/// last one ends it.
pub proof fn law_summary_polling_is_bounded(attempts_left: u32, reply: HttpReplyView)
    ensures
        summary_step(attempts_left, reply) matches JobStepView::Again { attempts_left: left, .. }
            ==> left < attempts_left && left >= 1,
        attempts_left <= 1 ==> summary_step(attempts_left, reply) is Finished,
{
}

} // verus!
