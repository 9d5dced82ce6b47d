//! Document Intelligence Service: layout and text of documents.

use crate::config::Cloud;
use crate::json::{member_debug, member_debug_of, Json, JsonView};
use crate::services::{
    offer, offered, regional, regional_endpoint, scenarios_view, AzureService, InputType, Outcome,
    OutcomeView, TestContext, TestContextView, TestScenario, TestScenarioView,
};
use crate::services::exchange::{
    counted, no_headers, passed_count, passed_text, push_header, with_credentials, Body, BodyView,
    HeaderValue, HeaderValueView, HttpReply, HttpReplyView, Method, ScenarioRequest,
    ScenarioRequestView,
};
use crate::text::str_eq;
use vstd::prelude::*;
use vstd::slice::slice_to_vec;
use vstd::string::*;
use vstd::utf8::encode_utf8;

verus! {

/// The scenarios that the service offers, in the order in which they run.
pub open spec fn scenarios() -> Seq<TestScenarioView> {
    seq![
        offered("layout"@, "Layout Analysis"@, "Extract layout and structure from document"@, Some(InputType::Document)),
        offered("read"@, "Read (OCR)"@, "Extract text from document using OCR"@, Some(InputType::Document)),
    ]
}

/// The base endpoint: the custom endpoint as it is where one is given, else
/// the regional endpoint of the cloud.
pub open spec fn endpoint_text(
    region: Seq<char>,
    cloud: Cloud,
    custom_endpoint: Option<Seq<char>>,
) -> Seq<char> {
    match custom_endpoint {
        Some(e) => e,
        None => regional_endpoint(region, cloud),
    }
}

/// Document Intelligence Service implementation.
#[derive(Debug, Clone, Copy)]
pub struct DocumentIntelligenceService;

impl DocumentIntelligenceService {
    pub fn new() -> (r: DocumentIntelligenceService) {
        DocumentIntelligenceService
    }
}

impl Default for DocumentIntelligenceService {
    fn default() -> (r: DocumentIntelligenceService) {
        DocumentIntelligenceService::new()
    }
}

impl AzureService for DocumentIntelligenceService {
    fn name(&self) -> (r: &'static str)
        ensures
            r@ == "document_intelligence"@,
    {
        "document_intelligence"
    }

    fn display_name(&self) -> (r: &'static str)
        ensures
            r@ == "Document Intelligence"@,
    {
        "Document Intelligence"
    }

    /// The custom endpoint as it is where one is given, else the regional
    /// endpoint of the cloud.
    fn get_endpoint(&self, region: &str, cloud: Cloud, custom_endpoint: Option<&str>) -> (r: String)
        ensures
            r@ == endpoint_text(
                region@,
                cloud,
                match custom_endpoint {
                    Some(e) => Some(e@),
                    None => None,
                },
            ),
    {
        match custom_endpoint {
            Some(endpoint) => endpoint.to_owned(),
            None => regional(region, cloud),
        }
    }

    fn list_scenarios(&self) -> (r: Vec<TestScenario>)
        ensures
            scenarios_view(r@) == scenarios(),
    {
        let mut r: Vec<TestScenario> = Vec::new();
        r.push(offer("layout", "Layout Analysis", "Extract layout and structure from document", Some(InputType::Document)));
        r.push(offer("read", "Read (OCR)", "Extract text from document using OCR", Some(InputType::Document)));
        assert(scenarios_view(r@) =~= scenarios());
        r
    }
}

pub const MINIMAL_PDF: &'static str =
    "%PDF-1.4\n1 0 obj\n<< /Type /Catalog /Pages 2 0 R >>\nendobj\n2 0 obj\n<< /Type /Pages /Kids [3 0 R] /Count 1 >>\nendobj\n3 0 obj\n<< /Type /Page /Parent 2 0 R /MediaBox [0 0 612 792] >>\nendobj\nxref\n0 4\n0000000000 65535 f\n0000000009 00000 n\n0000000058 00000 n\n0000000115 00000 n\ntrailer\n<< /Size 4 /Root 1 0 R >>\nstartxref\n196\n%%EOF";

pub const MODELS_PATH: &'static str = "/documentintelligence/documentModels/";

pub const ANALYZE_SUFFIX: &'static str = ":analyze?api-version=2024-11-30";

/// How often the state of an analysis is asked for.
pub const POLL_ATTEMPTS: u32 = 30;

/// Milliseconds to wait before each time the state of an analysis is asked
/// for.
pub const POLL_WAIT_MILLIS: u64 = 1000;

/// The document that a scenario sends with its content type: the input
/// where there is one, else a built-in PDF of one blank page.
pub open spec fn document_of(context: TestContextView) -> (Seq<u8>, Seq<char>) {
    match context.input {
        Some(input) => (input.data, input.content_type),
        None => (encode_utf8(MINIMAL_PDF@), "application/pdf"@),
    }
}

/// The request that starts an analysis with a model: a POST of the
/// document to the address of the model below the endpoint, with the
/// credentials.
pub open spec fn analyze_request(context: TestContextView, model_id: Seq<char>) -> ScenarioRequestView {
    ScenarioRequestView {
        method: Method::Post,
        url: endpoint_text(context.region, context.cloud, context.endpoint) + MODELS_PATH@
            + model_id + ANALYZE_SUFFIX@,
        headers: with_credentials(
            seq![("Content-Type"@, document_of(context).1)],
            context.credentials,
        ),
        body: BodyView::Bytes(document_of(context).0),
    }
}

/// What the reply to the start of an analysis means.
pub ghost enum AnalysisStartView {
    /// The analysis runs; its state is asked for at this address.
    Accepted(Seq<char>),
    /// The scenario is over.
    Finished(OutcomeView),
}

/// What the reply to the start of an analysis means: with status 202 and
/// the address of the operation as text, the analysis is followed; any
/// other success shows the state that the reply names; anything else is a
/// failure.
pub open spec fn analysis_start(reply: HttpReplyView) -> AnalysisStartView {
    match reply {
        HttpReplyView::Failed(m) => AnalysisStartView::Finished(
            crate::services::exchange::request_failed(m),
        ),
        HttpReplyView::Response(r) => if r.status == 202 {
            match r.operation_location {
                HeaderValueView::Text(url) => AnalysisStartView::Accepted(url),
                _ => AnalysisStartView::Finished(
                    r.failure("No operation-location header in response"@),
                ),
            }
        } else if r.succeeded() {
            AnalysisStartView::Finished(
                OutcomeView::Passed(
                    "Analysis complete: "@ + member_debug_of(r.text(), "status"@),
                ),
            )
        } else {
            AnalysisStartView::Finished(r.refusal())
        },
    }
}

/// What follows one look at the state of an analysis.
pub ghost enum PollStepView {
    /// The state is asked for again, after a wait.
    Again { attempts_left: u32, wait_millis: u64 },
    /// The scenario is over.
    Finished(OutcomeView),
}

/// The message of a failed analysis, as the reply names it.
pub open spec fn failure_message(body: JsonView) -> Seq<char> {
    match body.member("error"@) {
        Some(e) => match e.text_at("message"@) {
            Some(m) => m,
            None => "Unknown error"@,
        },
        None => "Unknown error"@,
    }
}

/// What follows when the state is not final: another look while attempts
/// are left, else the failure of a timeout.
pub open spec fn again_or_timeout(attempts_left: u32) -> PollStepView {
    if attempts_left > 1 {
        PollStepView::Again {
            attempts_left: (attempts_left - 1) as u32,
            wait_millis: POLL_WAIT_MILLIS,
        }
    } else {
        PollStepView::Finished(
            OutcomeView::Failed { status: 0, error: "Operation timed out after 30 seconds"@ },
        )
    }
}

/// What follows one look at the state of an analysis.
///
/// - A request that fails, or a status that is no success, ends the
///   scenario with that failure.
/// - `succeeded` ends it with the number of pages, `failed` with the
///   message of the service, a state that is not known with that state.
/// - `running`, `notStarted` and a reply without a state ask again.
pub open spec fn poll_step(attempts_left: u32, reply: HttpReplyView) -> PollStepView {
    match reply {
        HttpReplyView::Failed(m) => PollStepView::Finished(
            OutcomeView::Failed { status: 0, error: "Poll request failed: "@ + m },
        ),
        HttpReplyView::Response(r) => if !r.succeeded() {
            PollStepView::Finished(r.raw_refusal())
        } else {
            poll_step_for(attempts_left, r.status, r.json())
        },
    }
}

/// What follows one look at the state of an analysis whose reply is a
/// success with this status and this body.
pub open spec fn poll_step_for(attempts_left: u32, status: u16, body: JsonView) -> PollStepView {
    match body.text_at("status"@) {
        None => again_or_timeout(attempts_left),
        Some(state) => if state == "succeeded"@ {
            PollStepView::Finished(
                counted(
                    "Analysis succeeded: "@,
                    body.count2("analyzeResult"@, "pages"@),
                    " pages processed"@,
                ),
            )
        } else if state == "failed"@ {
            PollStepView::Finished(
                OutcomeView::Failed {
                    status,
                    error: "Analysis failed: "@ + failure_message(body),
                },
            )
        } else if state == "running"@ || state == "notStarted"@ {
            again_or_timeout(attempts_left)
        } else {
            PollStepView::Finished(
                OutcomeView::Failed { status, error: "Unknown status: "@ + state },
            )
        },
    }
}

/// What the reply to the start of an analysis means.
#[derive(Debug)]
pub enum AnalysisStart {
    /// The analysis runs; its state is asked for at this address, first
    /// after a wait of `POLL_WAIT_MILLIS`, `POLL_ATTEMPTS` times at most.
    Accepted(String),
    /// The scenario is over.
    Finished(Outcome),
}

impl View for AnalysisStart {
    type V = AnalysisStartView;

    open spec fn view(&self) -> AnalysisStartView {
        match self {
            AnalysisStart::Accepted(url) => AnalysisStartView::Accepted(url@),
            AnalysisStart::Finished(o) => AnalysisStartView::Finished(o@),
        }
    }
}

/// What follows one look at the state of an analysis.
#[derive(Debug)]
pub enum PollStep {
    /// The state is asked for again, after a wait.
    Again { attempts_left: u32, wait_millis: u64 },
    /// The scenario is over.
    Finished(Outcome),
}

impl View for PollStep {
    type V = PollStepView;

    open spec fn view(&self) -> PollStepView {
        match self {
            PollStep::Again { attempts_left, wait_millis } => PollStepView::Again {
                attempts_left: *attempts_left,
                wait_millis: *wait_millis,
            },
            PollStep::Finished(o) => PollStepView::Finished(o@),
        }
    }
}

fn again(attempts_left: u32) -> (r: PollStep)
    ensures
        r@ == again_or_timeout(attempts_left),
{
    if attempts_left > 1 {
        PollStep::Again { attempts_left: attempts_left - 1, wait_millis: POLL_WAIT_MILLIS }
    } else {
        PollStep::Finished(
            Outcome::Failed { status: 0, error: "Operation timed out after 30 seconds".to_owned() },
        )
    }
}

impl DocumentIntelligenceService {
    /// The document that a scenario sends: the input of the context, or
    /// the built-in PDF as `application/pdf` where the context has none.
    pub fn get_document_data(context: &TestContext) -> (r: (Vec<u8>, String))
        ensures
            r.0@ == document_of(context@).0,
            r.1@ == document_of(context@).1,
    {
        match &context.input {
            Some(input) => (input.data.clone(), input.content_type.clone()),
            None => (slice_to_vec(MINIMAL_PDF.as_bytes()), "application/pdf".to_owned()),
        }
    }

    /// The request that starts an analysis with a model.
    pub fn analyze_request(context: &TestContext, model_id: &str) -> (r: ScenarioRequest)
        ensures
            r@ == analyze_request(context@, model_id@),
    {
        let mut url = DocumentIntelligenceService::new().get_endpoint(
            context.region.as_str(),
            context.cloud,
            match &context.endpoint {
                Some(e) => Some(e.as_str()),
                None => None,
            },
        );
        url.append(MODELS_PATH);
        url.append(model_id);
        url.append(ANALYZE_SUFFIX);
        let (document, content_type) = DocumentIntelligenceService::get_document_data(context);
        let mut headers = no_headers();
        push_header(&mut headers, "Content-Type", content_type.as_str());
        context.credentials.apply_to_request(&mut headers);
        assert(crate::auth::fields_view(headers@) =~= with_credentials(
            seq![("Content-Type"@, document_of(context@).1)],
            context@.credentials,
        ));
        ScenarioRequest { method: Method::Post, url, headers, body: Body::Bytes(document) }
    }

    /// The request of the layout scenario.
    pub fn test_layout(context: &TestContext) -> (r: ScenarioRequest)
        ensures
            r@ == analyze_request(context@, "prebuilt-layout"@),
    {
        DocumentIntelligenceService::analyze_request(context, "prebuilt-layout")
    }

    /// The request of the scenario that reads text.
    pub fn test_read(context: &TestContext) -> (r: ScenarioRequest)
        ensures
            r@ == analyze_request(context@, "prebuilt-read"@),
    {
        DocumentIntelligenceService::analyze_request(context, "prebuilt-read")
    }

    /// Judges the reply to the start of an analysis.
    pub fn analyze_document(reply: &HttpReply) -> (r: AnalysisStart)
        ensures
            r@ == analysis_start(reply@),
    {
        match reply {
            HttpReply::Failed(m) => {
                let mut error = "Request failed: ".to_owned();
                error.append(m.as_str());
                AnalysisStart::Finished(Outcome::Failed { status: 0, error })
            },
            HttpReply::Response(r) => {
                if r.status == 202 {
                    match &r.operation_location {
                        HeaderValue::Text(url) => AnalysisStart::Accepted(url.clone()),
                        _ => AnalysisStart::Finished(
                            r.failure("No operation-location header in response"),
                        ),
                    }
                } else if r.succeeded() {
                    AnalysisStart::Finished(
                        passed_text("Analysis complete: ", member_debug(r.text(), "status").as_str()),
                    )
                } else {
                    AnalysisStart::Finished(r.refusal())
                }
            },
        }
    }

    /// The request that asks for the state of an analysis.
    pub fn poll_request(context: &TestContext, operation_url: &str) -> (r: ScenarioRequest)
        ensures
            r@ == (ScenarioRequestView {
                method: Method::Get,
                url: operation_url@,
                headers: with_credentials(Seq::empty(), context@.credentials),
                body: BodyView::Empty,
            }),
    {
        let mut headers = no_headers();
        context.credentials.apply_to_request(&mut headers);
        ScenarioRequest {
            method: Method::Get,
            url: operation_url.to_owned(),
            headers,
            body: Body::Empty,
        }
    }

    /// Judges one look at the state of an analysis, with `attempts_left`
    /// looks left, this one included.
    pub fn poll_operation(attempts_left: u32, reply: &HttpReply) -> (r: PollStep)
        ensures
            r@ == poll_step(attempts_left, reply@),
    {
        match reply {
            HttpReply::Failed(m) => {
                let mut error = "Poll request failed: ".to_owned();
                error.append(m.as_str());
                PollStep::Finished(Outcome::Failed { status: 0, error })
            },
            HttpReply::Response(r) => {
                if !r.succeeded() {
                    return PollStep::Finished(r.raw_refusal());
                }
                DocumentIntelligenceService::poll_operation_of(attempts_left, r.status, &r.json())
            },
        }
    }

    /// Judges one look at the state of an analysis whose reply is a success
    /// with this status and this body: `succeeded` ends the scenario with
    /// the number of pages, `failed` with the message of the service, a
    /// state that is not known with that state; `running`, `notStarted`
    /// and a body without a state ask again while attempts are left.
    pub fn poll_operation_of(attempts_left: u32, status: u16, body: &Json) -> (r: PollStep)
        ensures
            r@ == poll_step_for(attempts_left, status, body@),
    {
        match body.text_at("status") {
            None => again(attempts_left),
            Some(state) => {
                if str_eq(state, "succeeded") {
                    PollStep::Finished(
                        passed_count(
                            "Analysis succeeded: ",
                            body.count2("analyzeResult", "pages"),
                            " pages processed",
                        ),
                    )
                } else if str_eq(state, "failed") {
                    let message = match body.get("error") {
                        Some(e) => match e.text_at("message") {
                            Some(m) => m,
                            None => "Unknown error",
                        },
                        None => "Unknown error",
                    };
                    let mut error = "Analysis failed: ".to_owned();
                    error.append(message);
                    PollStep::Finished(Outcome::Failed { status, error })
                } else if str_eq(state, "running") || str_eq(state, "notStarted") {
                    again(attempts_left)
                } else {
                    let mut error = "Unknown status: ".to_owned();
                    error.append(state);
                    PollStep::Finished(Outcome::Failed { status, error })
                }
            },
        }
    }
}

/// The state of an analysis is asked for thirty times at most: every look
/// that does not end the scenario leaves one attempt less, and the last one
/// ends it.
pub proof fn law_analysis_polling_is_bounded(attempts_left: u32, reply: HttpReplyView)
    ensures
        poll_step(attempts_left, reply) matches PollStepView::Again { attempts_left: left, .. }
            ==> left < attempts_left && left >= 1,
        attempts_left <= 1 ==> poll_step(attempts_left, reply) is Finished,
{
}

} // verus!
