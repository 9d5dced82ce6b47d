//! Vision Service: analysis of images.

use crate::config::Cloud;
use crate::json::{Json, JsonView};
use crate::services::{
    offer, offered, regional, regional_endpoint, scenarios_view, AzureService, InputType, Outcome,
    OutcomeView, TestContext, TestContextView, TestScenario, TestScenarioView,
};
use crate::services::exchange::{
    counted, no_headers, passed_count, push_header, with_credentials, Body, BodyView, HttpReply,
    HttpReplyView, Method, ScenarioRequest, ScenarioRequestView,
};
use vstd::prelude::*;
use vstd::string::*;

verus! {

/// The scenarios that the service offers, in the order in which they run.
pub open spec fn scenarios() -> Seq<TestScenarioView> {
    seq![
        offered("analyze_image"@, "Analyze Image"@, "Extract tags, objects, and text from image"@, Some(InputType::Image)),
        offered("read_text"@, "Read Text (OCR)"@, "Extract text from image using OCR"@, Some(InputType::Image)),
        offered("detect_objects"@, "Detect Objects"@, "Detect and locate objects in image"@, Some(InputType::Image)),
        offered("smart_crops"@, "Smart Crops"@, "Generate smart-cropped thumbnails"@, Some(InputType::Image)),
        offered("people_detection"@, "People Detection"@, "Detect people in image"@, Some(InputType::Image)),
    ]
}

/// The base endpoint: the custom endpoint as it is where one is given, else
/// the regional endpoint of the cloud.
pub open spec fn endpoint_text(
    region: Seq<char>,
    cloud: Cloud,
    custom_endpoint: Option<Seq<char>>,
) -> Seq<char> {
    match custom_endpoint {
        Some(e) => e,
        None => regional_endpoint(region, cloud),
    }
}

/// Vision Service implementation.
#[derive(Debug, Clone, Copy)]
pub struct VisionService;

impl VisionService {
    pub fn new() -> (r: VisionService) {
        VisionService
    }
}

impl Default for VisionService {
    fn default() -> (r: VisionService) {
        VisionService::new()
    }
}

impl AzureService for VisionService {
    fn name(&self) -> (r: &'static str)
        ensures
            r@ == "vision"@,
    {
        "vision"
    }

    fn display_name(&self) -> (r: &'static str)
        ensures
            r@ == "Vision"@,
    {
        "Vision"
    }

    /// The custom endpoint as it is where one is given, else the regional
    /// endpoint of the cloud.
    fn get_endpoint(&self, region: &str, cloud: Cloud, custom_endpoint: Option<&str>) -> (r: String)
        ensures
            r@ == endpoint_text(
                region@,
                cloud,
                match custom_endpoint {
                    Some(e) => Some(e@),
                    None => None,
                },
            ),
    {
        match custom_endpoint {
            Some(endpoint) => endpoint.to_owned(),
            None => regional(region, cloud),
        }
    }

    fn list_scenarios(&self) -> (r: Vec<TestScenario>)
        ensures
            scenarios_view(r@) == scenarios(),
    {
        let mut r: Vec<TestScenario> = Vec::new();
        r.push(offer("analyze_image", "Analyze Image", "Extract tags, objects, and text from image", Some(InputType::Image)));
        r.push(offer("read_text", "Read Text (OCR)", "Extract text from image using OCR", Some(InputType::Image)));
        r.push(offer("detect_objects", "Detect Objects", "Detect and locate objects in image", Some(InputType::Image)));
        r.push(offer("smart_crops", "Smart Crops", "Generate smart-cropped thumbnails", Some(InputType::Image)));
        r.push(offer("people_detection", "People Detection", "Detect people in image", Some(InputType::Image)));
        assert(scenarios_view(r@) =~= scenarios());
        r
    }
}

pub const ANALYZE_PATH: &'static str =
    "/computervision/imageanalysis:analyze?api-version=2024-02-01&features=";

/// The number of bytes of the built-in image.
pub const PNG_SIZE: usize = 114;

/// The built-in image: a PNG of 50 by 50 pixels, the smallest that the
/// service takes.
pub open spec fn minimal_png_bytes() -> Seq<u8> {
    seq![
        0x89u8, 0x50, 0x4E, 0x47, 0x0D, 0x0A, 0x1A, 0x0A, 0x00, 0x00, 0x00, 0x0D, 0x49, 0x48, 0x44, 0x52,
        0x00, 0x00, 0x00, 0x32, 0x00, 0x00, 0x00, 0x32, 0x08, 0x02, 0x00, 0x00, 0x00, 0x91, 0x5D, 0x1F,
        0xE6, 0x00, 0x00, 0x00, 0x39, 0x49, 0x44, 0x41, 0x54, 0x78, 0xDA, 0xED, 0xCE, 0x01, 0x09, 0x00,
        0x00, 0x08, 0xC0, 0xB0, 0xF7, 0x2F, 0xAD, 0x35, 0x14, 0x06, 0x0B, 0xB0, 0xA6, 0x0E, 0x4A, 0x4B,
        0x4B, 0x4B, 0x4B, 0x4B, 0x4B, 0x4B, 0x4B, 0x4B, 0x4B, 0x4B, 0x4B, 0x4B, 0x4B, 0x4B, 0x4B, 0x4B,
        0x4B, 0x4B, 0x4B, 0x4B, 0x4B, 0x4B, 0x4B, 0x4B, 0x4B, 0x4B, 0xEB, 0x57, 0x6B, 0x01, 0x7B, 0x2B,
        0xBA, 0xC4, 0x2D, 0x11, 0x2D, 0xB9, 0x00, 0x00, 0x00, 0x00, 0x49, 0x45, 0x4E, 0x44, 0xAE, 0x42,
        0x60, 0x82,
    ]
}

/// The built-in image.
pub fn minimal_png() -> (r: Vec<u8>)
    ensures
        r@ == minimal_png_bytes(),
{
    let bytes: [u8; 114] = [
        0x89, 0x50, 0x4E, 0x47, 0x0D, 0x0A, 0x1A, 0x0A, 0x00, 0x00, 0x00, 0x0D, 0x49, 0x48, 0x44, 0x52,
        0x00, 0x00, 0x00, 0x32, 0x00, 0x00, 0x00, 0x32, 0x08, 0x02, 0x00, 0x00, 0x00, 0x91, 0x5D, 0x1F,
        0xE6, 0x00, 0x00, 0x00, 0x39, 0x49, 0x44, 0x41, 0x54, 0x78, 0xDA, 0xED, 0xCE, 0x01, 0x09, 0x00,
        0x00, 0x08, 0xC0, 0xB0, 0xF7, 0x2F, 0xAD, 0x35, 0x14, 0x06, 0x0B, 0xB0, 0xA6, 0x0E, 0x4A, 0x4B,
        0x4B, 0x4B, 0x4B, 0x4B, 0x4B, 0x4B, 0x4B, 0x4B, 0x4B, 0x4B, 0x4B, 0x4B, 0x4B, 0x4B, 0x4B, 0x4B,
        0x4B, 0x4B, 0x4B, 0x4B, 0x4B, 0x4B, 0x4B, 0x4B, 0x4B, 0x4B, 0xEB, 0x57, 0x6B, 0x01, 0x7B, 0x2B,
        0xBA, 0xC4, 0x2D, 0x11, 0x2D, 0xB9, 0x00, 0x00, 0x00, 0x00, 0x49, 0x45, 0x4E, 0x44, 0xAE, 0x42,
        0x60, 0x82,
    ];
    let mut r: Vec<u8> = Vec::new();
    let mut i: usize = 0;
    while i < PNG_SIZE
        invariant
            i <= PNG_SIZE,
            r.len() == i,
            bytes@ == minimal_png_bytes(),
            forall|k: int| 0 <= k < i ==> r@[k] == minimal_png_bytes()[k],
        decreases PNG_SIZE - i,
    {
        r.push(bytes[i]);
        i += 1;
    }
    assert(r@ =~= minimal_png_bytes());
    r
}

/// The image that a scenario sends with its content type: the input where
/// there is one, else the built-in image.
pub open spec fn image_of(context: TestContextView) -> (Seq<u8>, Seq<char>) {
    match context.input {
        Some(input) => (input.data, input.content_type),
        None => (minimal_png_bytes(), "image/png"@),
    }
}

/// The request of an image analysis for some features: a POST of the image
/// to the analysis address below the endpoint, with the credentials.
pub open spec fn analysis_request(context: TestContextView, features: Seq<char>) -> ScenarioRequestView {
    ScenarioRequestView {
        method: Method::Post,
        url: endpoint_text(context.region, context.cloud, context.endpoint) + ANALYZE_PATH@
            + features,
        headers: with_credentials(
            seq![("Content-Type"@, image_of(context).1)],
            context.credentials,
        ),
        body: BodyView::Bytes(image_of(context).0),
    }
}

/// `true` or `false`, as they are shown.
pub open spec fn bool_text(b: bool) -> Seq<char> {
    if b {
        "true"@
    } else {
        "false"@
    }
}

/// What the reply to an analysis of tags, objects and text comes to: which
/// of the three results the reply holds.
pub open spec fn analyze_outcome(reply: HttpReplyView) -> OutcomeView {
    if reply.succeeded() {
        analyze_judgement(reply->Response_0.json())
    } else {
        reply.refusal()
    }
}

/// What the body of a successful reply to an analysis of tags, objects and
/// text comes to: which of the three results it holds.
pub open spec fn analyze_judgement(body: JsonView) -> OutcomeView {
    OutcomeView::Passed(
        "Analysis complete (tags: "@ + bool_text(body.member("tagsResult"@) is Some)
            + ", objects: "@ + bool_text(body.member("objectsResult"@) is Some) + ", read: "@
            + bool_text(body.member("readResult"@) is Some) + ")"@,
    )
}

/// What the reply to an analysis comes to that counts what was found: the
/// number of items under `list` of the result under `result`.
pub open spec fn count_outcome(
    reply: HttpReplyView,
    result: Seq<char>,
    list: Seq<char>,
    before: Seq<char>,
    after: Seq<char>,
) -> OutcomeView {
    if reply.succeeded() {
        counted(before, reply->Response_0.json().count2(result, list), after)
    } else {
        reply.refusal()
    }
}

fn push_bool(details: &mut String, b: bool)
    ensures
        final(details)@ == old(details)@ + bool_text(b),
{
    if b {
        details.append("true");
    } else {
        details.append("false");
    }
}

fn judge_count(reply: &HttpReply, result: &str, list: &str, before: &str, after: &str) -> (r:
    Outcome)
    ensures
        r@ == count_outcome(reply@, result@, list@, before@, after@),
{
    match reply.success() {
        Ok(response) => passed_count(before, response.json().count2(result, list), after),
        Err(o) => o,
    }
}

impl VisionService {
    /// The image that a scenario sends: the input of the context, or the
    /// built-in image as `image/png` where the context has none.
    pub fn get_image_data(context: &TestContext) -> (r: (Vec<u8>, String))
        ensures
            r.0@ == image_of(context@).0,
            r.1@ == image_of(context@).1,
    {
        match &context.input {
            Some(input) => (input.data.clone(), input.content_type.clone()),
            None => (minimal_png(), "image/png".to_owned()),
        }
    }

    /// The request of an image analysis for some features.
    pub fn analysis_request(context: &TestContext, features: &str) -> (r: ScenarioRequest)
        ensures
            r@ == analysis_request(context@, features@),
    {
        let mut url = VisionService::new().get_endpoint(
            context.region.as_str(),
            context.cloud,
            match &context.endpoint {
                Some(e) => Some(e.as_str()),
                None => None,
            },
        );
        url.append(ANALYZE_PATH);
        url.append(features);
        let (image, content_type) = VisionService::get_image_data(context);
        let mut headers = no_headers();
        push_header(&mut headers, "Content-Type", content_type.as_str());
        context.credentials.apply_to_request(&mut headers);
        assert(crate::auth::fields_view(headers@) =~= with_credentials(
            seq![("Content-Type"@, image_of(context@).1)],
            context@.credentials,
        ));
        ScenarioRequest { method: Method::Post, url, headers, body: Body::Bytes(image) }
    }

    /// The request of the scenario that analyzes an image: tags, objects
    /// and text, which every region offers.
    pub fn analyze_image_request(context: &TestContext) -> (r: ScenarioRequest)
        ensures
            r@ == analysis_request(context@, "tags,objects,read"@),
    {
        VisionService::analysis_request(context, "tags,objects,read")
    }

    /// The request of the scenario that reads text.
    pub fn read_text_request(context: &TestContext) -> (r: ScenarioRequest)
        ensures
            r@ == analysis_request(context@, "read"@),
    {
        VisionService::analysis_request(context, "read")
    }

    /// The request of the scenario that detects objects.
    pub fn detect_objects_request(context: &TestContext) -> (r: ScenarioRequest)
        ensures
            r@ == analysis_request(context@, "objects"@),
    {
        VisionService::analysis_request(context, "objects")
    }

    /// The request of the scenario that crops.
    pub fn smart_crops_request(context: &TestContext) -> (r: ScenarioRequest)
        ensures
            r@ == analysis_request(context@, "smartCrops&smartCrops-aspect-ratios=1.0,1.5"@),
    {
        VisionService::analysis_request(context, "smartCrops&smartCrops-aspect-ratios=1.0,1.5")
    }

    /// The request of the scenario that detects people.
    pub fn people_detection_request(context: &TestContext) -> (r: ScenarioRequest)
        ensures
            r@ == analysis_request(context@, "people"@),
    {
        VisionService::analysis_request(context, "people")
    }

    /// Judges the reply to the analysis of an image.
    pub fn test_analyze_image(reply: &HttpReply) -> (r: Outcome)
        ensures
            r@ == analyze_outcome(reply@),
    {
        match reply.success() {
            Ok(response) => VisionService::analysis_of(&response.json()),
            Err(o) => o,
        }
    }

    /// Judges the body of a successful reply to the analysis of an image:
    /// it passes, and the details say which results the body holds.
    pub fn analysis_of(body: &Json) -> (r: Outcome)
        ensures
            r@ == analyze_judgement(body@),
    {
        let mut details = "Analysis complete (tags: ".to_owned();
        push_bool(&mut details, body.get("tagsResult").is_some());
        details.append(", objects: ");
        push_bool(&mut details, body.get("objectsResult").is_some());
        details.append(", read: ");
        push_bool(&mut details, body.get("readResult").is_some());
        details.append(")");
        Outcome::Passed(details)
    }

    /// Judges the reply to the reading of text.
    pub fn test_read_text(reply: &HttpReply) -> (r: Outcome)
        ensures
            r@ == count_outcome(
                reply@,
                "readResult"@,
                "blocks"@,
                "Read complete: "@,
                " text blocks found"@,
            ),
    {
        judge_count(reply, "readResult", "blocks", "Read complete: ", " text blocks found")
    }

    /// Judges the reply to the detection of objects.
    pub fn test_detect_objects(reply: &HttpReply) -> (r: Outcome)
        ensures
            r@ == count_outcome(
                reply@,
                "objectsResult"@,
                "values"@,
                "Detection complete: "@,
                " objects found"@,
            ),
    {
        judge_count(reply, "objectsResult", "values", "Detection complete: ", " objects found")
    }

    /// Judges the reply to the cropping.
    pub fn test_smart_crops(reply: &HttpReply) -> (r: Outcome)
        ensures
            r@ == count_outcome(
                reply@,
                "smartCropsResult"@,
                "values"@,
                "Smart crops complete: "@,
                " crop regions"@,
            ),
    {
        judge_count(reply, "smartCropsResult", "values", "Smart crops complete: ", " crop regions")
    }

    /// Judges the reply to the detection of people.
    pub fn test_people_detection(reply: &HttpReply) -> (r: Outcome)
        ensures
            r@ == count_outcome(
                reply@,
                "peopleResult"@,
                "values"@,
                "People detection complete: "@,
                " people found"@,
            ),
    {
        judge_count(
            reply,
            "peopleResult",
            "values",
            "People detection complete: ",
            " people found",
        )
    }
}

} // verus!
