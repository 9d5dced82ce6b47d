//! The run of one scenario as a state machine: the caller sends what it is
//! told to send and hands back what came back, until the scenario is over.

use crate::services::{
    document_intelligence, find_scenario, language, scenario_by_id, speech, translator,
    unknown_scenario, vision, Outcome, OutcomeView, ServiceKind, TestContext, TestContextView,
    TestResult, TestResultView, TestScenario,
};
use crate::services::document_intelligence::{
    AnalysisStart, AnalysisStartView, DocumentIntelligenceService, PollStep, PollStepView,
    POLL_ATTEMPTS, POLL_WAIT_MILLIS,
};
use crate::services::exchange::{
    endpoint_outcome, with_credentials, BodyView, HttpReply, HttpReplyView, Method, Parsed,
    ParsedView, ScenarioRequest, ScenarioRequestView,
};
use crate::services::language::{
    JobStart, JobStartView, JobStep, JobStepView, LanguageService, SUMMARY_ATTEMPTS,
    SUMMARY_WAIT_MILLIS,
};
use crate::services::speech::SpeechService;
use crate::services::translator::{Translation, TranslatorService};
use crate::services::vision::VisionService;
use crate::text::str_eq;
use vstd::prelude::*;
use vstd::string::*;

verus! {

/// The scenarios of all services.
#[derive(Debug, Clone, Copy, PartialEq, Eq, Structural)]
pub enum Scenario {
    SpeechEndpointCheck,
    SpeechVoicesList,
    SpeechTokenExchange,
    SpeechSttShort,
    SpeechSttRest,
    SpeechTts,
    TranslatorEndpointCheck,
    TranslatorLanguages,
    TranslatorDetect,
    TranslatorTranslate,
    LanguageSentiment,
    LanguageLanguageDetection,
    LanguageEntities,
    LanguageKeyPhrases,
    LanguagePiiDetection,
    LanguageEntityLinking,
    LanguageSummarization,
    VisionAnalyzeImage,
    VisionReadText,
    VisionDetectObjects,
    VisionSmartCrops,
    VisionPeopleDetection,
    DocumentLayout,
    DocumentRead,
}

impl Scenario {
    /// The scenario of a service with an identifier.
    pub open spec fn named(kind: ServiceKind, id: Seq<char>) -> Option<Scenario> {
        match kind {
            ServiceKind::Speech => if id == "endpoint_check"@ {
                Some(Scenario::SpeechEndpointCheck)
            } else if id == "voices_list"@ {
                Some(Scenario::SpeechVoicesList)
            } else if id == "token_exchange"@ {
                Some(Scenario::SpeechTokenExchange)
            } else if id == "stt_short"@ {
                Some(Scenario::SpeechSttShort)
            } else if id == "stt_rest"@ {
                Some(Scenario::SpeechSttRest)
            } else if id == "tts"@ {
                Some(Scenario::SpeechTts)
            } else {
                None
            },
            ServiceKind::Translator => if id == "endpoint_check"@ {
                Some(Scenario::TranslatorEndpointCheck)
            } else if id == "languages"@ {
                Some(Scenario::TranslatorLanguages)
            } else if id == "detect"@ {
                Some(Scenario::TranslatorDetect)
            } else if id == "translate"@ {
                Some(Scenario::TranslatorTranslate)
            } else {
                None
            },
            ServiceKind::Language => if id == "sentiment"@ {
                Some(Scenario::LanguageSentiment)
            } else if id == "language_detection"@ {
                Some(Scenario::LanguageLanguageDetection)
            } else if id == "entities"@ {
                Some(Scenario::LanguageEntities)
            } else if id == "key_phrases"@ {
                Some(Scenario::LanguageKeyPhrases)
            } else if id == "pii_detection"@ {
                Some(Scenario::LanguagePiiDetection)
            } else if id == "entity_linking"@ {
                Some(Scenario::LanguageEntityLinking)
            } else if id == "summarization"@ {
                Some(Scenario::LanguageSummarization)
            } else {
                None
            },
            ServiceKind::Vision => if id == "analyze_image"@ {
                Some(Scenario::VisionAnalyzeImage)
            } else if id == "read_text"@ {
                Some(Scenario::VisionReadText)
            } else if id == "detect_objects"@ {
                Some(Scenario::VisionDetectObjects)
            } else if id == "smart_crops"@ {
                Some(Scenario::VisionSmartCrops)
            } else if id == "people_detection"@ {
                Some(Scenario::VisionPeopleDetection)
            } else {
                None
            },
            ServiceKind::DocumentIntelligence => if id == "layout"@ {
                Some(Scenario::DocumentLayout)
            } else if id == "read"@ {
                Some(Scenario::DocumentRead)
            } else {
                None
            },
        }
    }

    /// The scenario of a service with an identifier.
    pub fn of(kind: ServiceKind, id: &str) -> (r: Option<Scenario>)
        ensures
            r == Scenario::named(kind, id@),
    {
        match kind {
            ServiceKind::Speech => {
                if str_eq(id, "endpoint_check") {
                    Some(Scenario::SpeechEndpointCheck)
                } else if str_eq(id, "voices_list") {
                    Some(Scenario::SpeechVoicesList)
                } else if str_eq(id, "token_exchange") {
                    Some(Scenario::SpeechTokenExchange)
                } else if str_eq(id, "stt_short") {
                    Some(Scenario::SpeechSttShort)
                } else if str_eq(id, "stt_rest") {
                    Some(Scenario::SpeechSttRest)
                } else if str_eq(id, "tts") {
                    Some(Scenario::SpeechTts)
                } else {
                    None
                }
            },
            ServiceKind::Translator => {
                if str_eq(id, "endpoint_check") {
                    Some(Scenario::TranslatorEndpointCheck)
                } else if str_eq(id, "languages") {
                    Some(Scenario::TranslatorLanguages)
                } else if str_eq(id, "detect") {
                    Some(Scenario::TranslatorDetect)
                } else if str_eq(id, "translate") {
                    Some(Scenario::TranslatorTranslate)
                } else {
                    None
                }
            },
            ServiceKind::Language => {
                if str_eq(id, "sentiment") {
                    Some(Scenario::LanguageSentiment)
                } else if str_eq(id, "language_detection") {
                    Some(Scenario::LanguageLanguageDetection)
                } else if str_eq(id, "entities") {
                    Some(Scenario::LanguageEntities)
                } else if str_eq(id, "key_phrases") {
                    Some(Scenario::LanguageKeyPhrases)
                } else if str_eq(id, "pii_detection") {
                    Some(Scenario::LanguagePiiDetection)
                } else if str_eq(id, "entity_linking") {
                    Some(Scenario::LanguageEntityLinking)
                } else if str_eq(id, "summarization") {
                    Some(Scenario::LanguageSummarization)
                } else {
                    None
                }
            },
            ServiceKind::Vision => {
                if str_eq(id, "analyze_image") {
                    Some(Scenario::VisionAnalyzeImage)
                } else if str_eq(id, "read_text") {
                    Some(Scenario::VisionReadText)
                } else if str_eq(id, "detect_objects") {
                    Some(Scenario::VisionDetectObjects)
                } else if str_eq(id, "smart_crops") {
                    Some(Scenario::VisionSmartCrops)
                } else if str_eq(id, "people_detection") {
                    Some(Scenario::VisionPeopleDetection)
                } else {
                    None
                }
            },
            ServiceKind::DocumentIntelligence => {
                if str_eq(id, "layout") {
                    Some(Scenario::DocumentLayout)
                } else if str_eq(id, "read") {
                    Some(Scenario::DocumentRead)
                } else {
                    None
                }
            },
        }
    }
}

/// What was read from the body of a successful reply by a reader with a
/// fixed shape, for the scenarios that have one.
#[derive(Debug)]
pub enum Facts {
    /// The scenario has no such reader.
    Unread,
    /// The number of voices.
    Voices(Parsed<usize>),
    /// The language of the first detection, if there is one.
    Detection(Parsed<Option<String>>),
    /// The first translation of the first result: `None` for no result,
    /// `Some` of `None` for a result without translations.
    Translation(Parsed<Option<Option<Translation>>>),
}

impl Facts {
    /// The number of voices that was read; nothing that was read counts as
    /// a body without the shape.
    pub open spec fn voices(self) -> ParsedView<usize> {
        match self {
            Facts::Voices(p) => speech::count_view(p),
            _ => ParsedView::Invalid(Seq::empty()),
        }
    }

    /// The detection that was read.
    pub open spec fn detection(self) -> ParsedView<Option<Seq<char>>> {
        match self {
            Facts::Detection(p) => translator::detected_view(p),
            _ => ParsedView::Invalid(Seq::empty()),
        }
    }

    /// The translation that was read.
    pub open spec fn translation(self) -> ParsedView<Option<Option<(Seq<char>, Seq<char>)>>> {
        match self {
            Facts::Translation(p) => translator::translated_view(p),
            _ => ParsedView::Invalid(Seq::empty()),
        }
    }

    fn into_voices(self) -> (r: Parsed<usize>)
        ensures
            speech::count_view(r) == self.voices(),
    {
        match self {
            Facts::Voices(p) => p,
            _ => Parsed::Invalid(String::new()),
        }
    }

    fn into_detection(self) -> (r: Parsed<Option<String>>)
        ensures
            translator::detected_view(r) == self.detection(),
    {
        match self {
            Facts::Detection(p) => p,
            _ => Parsed::Invalid(String::new()),
        }
    }

    fn into_translation(self) -> (r: Parsed<Option<Option<Translation>>>)
        ensures
            translator::translated_view(r) == self.translation(),
    {
        match self {
            Facts::Translation(p) => p,
            _ => Parsed::Invalid(String::new()),
        }
    }
}

/// The readers with a fixed shape.
#[derive(Debug, Clone, Copy, PartialEq, Eq, Structural)]
pub enum Shape {
    /// The body is not read with a fixed shape.
    Free,
    /// A list of voices, each with name, display name, local name, short
    /// name and locale.
    Voices,
    /// A list of detections, each with a language and a score.
    Detections,
    /// A list of results, each with a list of translations that have a
    /// text and a language.
    Translations,
}

/// Where the run of a scenario stands.
#[derive(Debug)]
pub enum Phase {
    /// The first request is under way.
    First,
    /// The job is followed at `url`, with `attempts_left` looks left, the
    /// one under way included.
    Following { url: String, attempts_left: u32 },
}

pub ghost enum PhaseView {
    First,
    Following { url: Seq<char>, attempts_left: u32 },
}

impl View for Phase {
    type V = PhaseView;

    open spec fn view(&self) -> PhaseView {
        match self {
            Phase::First => PhaseView::First,
            Phase::Following { url, attempts_left } => PhaseView::Following {
                url: url@,
                attempts_left: *attempts_left,
            },
        }
    }
}

/// The run of one scenario.
#[derive(Debug)]
pub struct ScenarioRun {
    pub scenario: Scenario,
    pub phase: Phase,
}

pub ghost struct ScenarioRunView {
    pub scenario: Scenario,
    pub phase: PhaseView,
}

impl View for ScenarioRun {
    type V = ScenarioRunView;

    open spec fn view(&self) -> ScenarioRunView {
        ScenarioRunView { scenario: self.scenario, phase: self.phase@ }
    }
}

/// What follows a reply.
#[derive(Debug)]
pub enum Next {
    /// After a wait, the request is sent and its reply handed back with the
    /// run.
    Send { wait_millis: u64, request: ScenarioRequest, run: ScenarioRun },
    /// The scenario is over.
    Done(Outcome),
}

pub ghost enum NextView {
    Send { wait_millis: u64, request: ScenarioRequestView, run: ScenarioRunView },
    Done(OutcomeView),
}

impl View for Next {
    type V = NextView;

    open spec fn view(&self) -> NextView {
        match self {
            Next::Send { wait_millis, request, run } => NextView::Send {
                wait_millis: *wait_millis,
                request: request@,
                run: run@,
            },
            Next::Done(o) => NextView::Done(o@),
        }
    }
}

/// A scenario that is over.
pub open spec fn done(outcome: OutcomeView) -> NextView {
    NextView::Done(outcome)
}

/// The request that asks for the state of a job.
pub open spec fn state_request(context: TestContextView, url: Seq<char>) -> ScenarioRequestView {
    ScenarioRequestView {
        method: Method::Get,
        url,
        headers: with_credentials(Seq::empty(), context.credentials),
        body: BodyView::Empty,
    }
}

/// The next look at a job.
pub open spec fn follow(
    context: TestContextView,
    scenario: Scenario,
    url: Seq<char>,
    attempts_left: u32,
    wait_millis: u64,
) -> NextView {
    NextView::Send {
        wait_millis,
        request: state_request(context, url),
        run: ScenarioRunView { scenario, phase: PhaseView::Following { url, attempts_left } },
    }
}

/// The first request of a scenario.
pub open spec fn first_request(scenario: Scenario, context: TestContextView) -> ScenarioRequestView {
    match scenario {
        Scenario::SpeechEndpointCheck => speech::endpoint_request(context),
        Scenario::SpeechVoicesList => speech::voices_request(context),
        Scenario::SpeechTokenExchange => speech::token_request(context),
        Scenario::SpeechSttShort => speech::transcribe_request(context),
        Scenario::SpeechSttRest => speech::recognition_request(context),
        Scenario::SpeechTts => speech::synthesis_request(context),
        Scenario::TranslatorEndpointCheck => translator::endpoint_request(context),
        Scenario::TranslatorLanguages => translator::languages_request(context),
        Scenario::TranslatorDetect => translator::text_request(context, "/detect?api-version=3.0"@, translator::SAMPLE_DETECT@),
        Scenario::TranslatorTranslate => translator::text_request(context, "/translate?api-version=3.0&to=es"@, translator::SAMPLE_TRANSLATE@),
        Scenario::LanguageSentiment => language::json_request(context, language::ANALYZE_PATH@, language::analyze_json("SentimentAnalysis"@, language::text_or(context, language::SAMPLE_TEXT@), true)),
        Scenario::LanguageLanguageDetection => language::json_request(context, language::ANALYZE_PATH@, language::analyze_json("LanguageDetection"@, language::text_or(context, language::SAMPLE_TEXT@), false)),
        Scenario::LanguageEntities => language::json_request(context, language::ANALYZE_PATH@, language::analyze_json("EntityRecognition"@, language::text_or(context, language::SAMPLE_TEXT@), true)),
        Scenario::LanguageKeyPhrases => language::json_request(context, language::ANALYZE_PATH@, language::analyze_json("KeyPhraseExtraction"@, language::text_or(context, language::SAMPLE_TEXT@), true)),
        Scenario::LanguagePiiDetection => language::json_request(context, language::ANALYZE_PATH@, language::analyze_json("PiiEntityRecognition"@, language::text_or(context, language::SAMPLE_PII@), true)),
        Scenario::LanguageEntityLinking => language::json_request(context, language::ANALYZE_PATH@, language::analyze_json("EntityLinking"@, language::text_or(context, language::SAMPLE_LINKING@), true)),
        Scenario::LanguageSummarization => language::json_request(context, language::JOBS_PATH@, language::summary_json(language::text_or(context, language::SAMPLE_SUMMARY@))),
        Scenario::VisionAnalyzeImage => vision::analysis_request(context, "tags,objects,read"@),
        Scenario::VisionReadText => vision::analysis_request(context, "read"@),
        Scenario::VisionDetectObjects => vision::analysis_request(context, "objects"@),
        Scenario::VisionSmartCrops => vision::analysis_request(context, "smartCrops&smartCrops-aspect-ratios=1.0,1.5"@),
        Scenario::VisionPeopleDetection => vision::analysis_request(context, "people"@),
        Scenario::DocumentLayout => document_intelligence::analyze_request(context, "prebuilt-layout"@),
        Scenario::DocumentRead => document_intelligence::analyze_request(context, "prebuilt-read"@),
    }
}

/// What follows the reply to the first request of a scenario.
pub open spec fn after_first(
    scenario: Scenario,
    context: TestContextView,
    reply: HttpReplyView,
    facts: Facts,
) -> NextView {
    match scenario {
        Scenario::SpeechEndpointCheck => done(endpoint_outcome(reply)),
        Scenario::SpeechVoicesList => done(speech::voices_outcome(reply, facts.voices())),
        Scenario::SpeechTokenExchange => done(speech::token_outcome(reply)),
        Scenario::SpeechSttShort => done(speech::speech_to_text_outcome(reply, "Transcription received: "@, false)),
        Scenario::SpeechSttRest => done(speech::speech_to_text_outcome(reply, "Recognition result: "@, true)),
        Scenario::SpeechTts => done(speech::synthesis_outcome(reply)),
        Scenario::TranslatorEndpointCheck => done(endpoint_outcome(reply)),
        Scenario::TranslatorLanguages => done(translator::languages_outcome(reply)),
        Scenario::TranslatorDetect => done(translator::detect_outcome(reply, facts.detection())),
        Scenario::TranslatorTranslate => done(translator::translate_outcome(reply, facts.translation())),
        Scenario::LanguageSentiment => done(language::document_outcome(reply, language::sentiment_details())),
        Scenario::LanguageLanguageDetection => done(language::document_outcome(reply, language::detection_details())),
        Scenario::LanguageEntities => done(language::document_outcome(reply, language::count_details("Found "@, "entities"@, " entities"@))),
        Scenario::LanguageKeyPhrases => done(language::document_outcome(reply, language::count_details("Extracted "@, "keyPhrases"@, " key phrases"@))),
        Scenario::LanguagePiiDetection => done(language::document_outcome(reply, language::count_details("Found "@, "entities"@, " PII entities"@))),
        Scenario::LanguageEntityLinking => done(language::document_outcome(reply, language::count_details("Linked "@, "entities"@, " entities"@))),
        Scenario::VisionAnalyzeImage => done(vision::analyze_outcome(reply)),
        Scenario::VisionReadText => done(vision::count_outcome(reply, "readResult"@, "blocks"@, "Read complete: "@, " text blocks found"@)),
        Scenario::VisionDetectObjects => done(vision::count_outcome(reply, "objectsResult"@, "values"@, "Detection complete: "@, " objects found"@)),
        Scenario::VisionSmartCrops => done(vision::count_outcome(reply, "smartCropsResult"@, "values"@, "Smart crops complete: "@, " crop regions"@)),
        Scenario::VisionPeopleDetection => done(vision::count_outcome(reply, "peopleResult"@, "values"@, "People detection complete: "@, " people found"@)),
        Scenario::LanguageSummarization => match language::summary_start(reply) {
            JobStartView::Accepted(url) => follow(
                context,
                scenario,
                url,
                SUMMARY_ATTEMPTS,
                SUMMARY_WAIT_MILLIS,
            ),
            JobStartView::Finished(o) => done(o),
        },
        Scenario::DocumentLayout | Scenario::DocumentRead => match document_intelligence::analysis_start(
            reply,
        ) {
            AnalysisStartView::Accepted(url) => follow(
                context,
                scenario,
                url,
                POLL_ATTEMPTS,
                POLL_WAIT_MILLIS,
            ),
            AnalysisStartView::Finished(o) => done(o),
        },
    }
}

/// What follows one look at a job: the summarization is judged as a
/// summarization job, every other scenario as the analysis of a document.
pub open spec fn after_look(
    scenario: Scenario,
    context: TestContextView,
    url: Seq<char>,
    attempts_left: u32,
    reply: HttpReplyView,
) -> NextView {
    if scenario == Scenario::LanguageSummarization {
        match language::summary_step(attempts_left, reply) {
            JobStepView::Again { attempts_left: left, wait_millis } => follow(
                context,
                scenario,
                url,
                left,
                wait_millis,
            ),
            JobStepView::Finished(o) => done(o),
        }
    } else {
        match document_intelligence::poll_step(attempts_left, reply) {
            PollStepView::Again { attempts_left: left, wait_millis } => follow(
                context,
                scenario,
                url,
                left,
                wait_millis,
            ),
            PollStepView::Finished(o) => done(o),
        }
    }
}

/// The transition function of a run: what follows a reply.
pub open spec fn next(
    run: ScenarioRunView,
    context: TestContextView,
    reply: HttpReplyView,
    facts: Facts,
) -> NextView {
    match run.phase {
        PhaseView::First => after_first(run.scenario, context, reply, facts),
        PhaseView::Following { url, attempts_left } => after_look(
            run.scenario,
            context,
            url,
            attempts_left,
            reply,
        ),
    }
}

/// How a scenario of a service begins.
#[derive(Debug)]
pub enum Start {
    /// The service has no such scenario; this result stands for it.
    Unknown(TestResult),
    /// The scenario runs: its definition, its run and its first request.
    Run { scenario: TestScenario, run: ScenarioRun, request: ScenarioRequest },
}

/// The reader with a fixed shape that a scenario has for the body of a
/// successful reply.
pub fn shape_of(scenario: Scenario) -> (r: Shape)
    ensures
        r == match scenario {
            Scenario::SpeechVoicesList => Shape::Voices,
            Scenario::TranslatorDetect => Shape::Detections,
            Scenario::TranslatorTranslate => Shape::Translations,
            _ => Shape::Free,
        },
{
    match scenario {
        Scenario::SpeechVoicesList => Shape::Voices,
        Scenario::TranslatorDetect => Shape::Detections,
        Scenario::TranslatorTranslate => Shape::Translations,
        _ => Shape::Free,
    }
}

/// The first request of a scenario.
pub fn request_for(scenario: Scenario, context: &TestContext) -> (r: ScenarioRequest)
    ensures
        r@ == first_request(scenario, context@),
{
    match scenario {
        Scenario::SpeechEndpointCheck => SpeechService::endpoint_check_request(context),
        Scenario::SpeechVoicesList => SpeechService::voices_list_request(context),
        Scenario::SpeechTokenExchange => SpeechService::token_exchange_request(context),
        Scenario::SpeechSttShort => SpeechService::stt_short_request(context),
        Scenario::SpeechSttRest => SpeechService::stt_rest_request(context),
        Scenario::SpeechTts => SpeechService::tts_request(context),
        Scenario::TranslatorEndpointCheck => TranslatorService::endpoint_check_request(context),
        Scenario::TranslatorLanguages => TranslatorService::languages_request(context),
        Scenario::TranslatorDetect => TranslatorService::detect_request(context),
        Scenario::TranslatorTranslate => TranslatorService::translate_request(context),
        Scenario::LanguageSentiment => LanguageService::sentiment_request(context),
        Scenario::LanguageLanguageDetection => LanguageService::language_detection_request(context),
        Scenario::LanguageEntities => LanguageService::entities_request(context),
        Scenario::LanguageKeyPhrases => LanguageService::key_phrases_request(context),
        Scenario::LanguagePiiDetection => LanguageService::pii_detection_request(context),
        Scenario::LanguageEntityLinking => LanguageService::entity_linking_request(context),
        Scenario::LanguageSummarization => LanguageService::summarization_request(context),
        Scenario::VisionAnalyzeImage => VisionService::analyze_image_request(context),
        Scenario::VisionReadText => VisionService::read_text_request(context),
        Scenario::VisionDetectObjects => VisionService::detect_objects_request(context),
        Scenario::VisionSmartCrops => VisionService::smart_crops_request(context),
        Scenario::VisionPeopleDetection => VisionService::people_detection_request(context),
        Scenario::DocumentLayout => DocumentIntelligenceService::test_layout(context),
        Scenario::DocumentRead => DocumentIntelligenceService::test_read(context),
    }
}

fn state_request_for(context: &TestContext, url: &str) -> (r: ScenarioRequest)
    ensures
        r@ == state_request(context@, url@),
{
    LanguageService::job_request(context, url)
}

fn follow_job(
    context: &TestContext,
    scenario: Scenario,
    url: String,
    attempts_left: u32,
    wait_millis: u64,
) -> (r: Next)
    ensures
        r@ == follow(context@, scenario, url@, attempts_left, wait_millis),
{
    let request = state_request_for(context, url.as_str());
    Next::Send {
        wait_millis,
        request,
        run: ScenarioRun { scenario, phase: Phase::Following { url, attempts_left } },
    }
}

/// Begins a scenario of a service: the run and its first request, or, for
/// an identifier that the service does not know, the result that says so.
pub fn run_scenario(kind: ServiceKind, scenario_id: &str, context: &TestContext) -> (r: Start)
    ensures
        match r {
            Start::Unknown(result) => (scenario_by_id(kind.scenarios(), scenario_id@) is None
                && result@ == TestResultView::failure(
                scenario_id@,
                "Unknown"@,
                0,
                "Unknown scenario: "@ + scenario_id@,
            )) || (scenario_by_id(kind.scenarios(), scenario_id@) is Some && Scenario::named(
                kind,
                scenario_id@,
            ) is None && result@ == TestResultView::failure(
                scenario_id@,
                scenario_by_id(kind.scenarios(), scenario_id@)->0.name,
                0,
                "Scenario '"@ + scenario_id@ + "' not implemented"@,
            )),
            Start::Run { scenario, run, request } => scenario_by_id(
                kind.scenarios(),
                scenario_id@,
            ) == Some(scenario@) && Scenario::named(kind, scenario_id@) == Some(run.scenario)
                && run.phase is First && request@ == first_request(run.scenario, context@),
        },
{
    let scenarios = kind.list_scenarios();
    let scenario = match find_scenario(&scenarios, scenario_id) {
        Some(s) => s,
        None => {
            return Start::Unknown(unknown_scenario(scenario_id));
        },
    };
    match Scenario::of(kind, scenario_id) {
        Some(which) => Start::Run {
            scenario,
            run: ScenarioRun { scenario: which, phase: Phase::First },
            request: request_for(which, context),
        },
        None => {
            let mut error = "Scenario '".to_owned();
            error.append(scenario_id);
            error.append("' not implemented");
            Start::Unknown(TestResult::failure(scenario_id, scenario.name, 0, error))
        },
    }
}

/// One step of a run: what follows the reply to the request that was sent
/// last, as `next` defines it. `facts` holds what a reader with a fixed
/// shape made of the body, for the scenarios that have one.
pub fn advance(run: ScenarioRun, context: &TestContext, reply: &HttpReply, facts: Facts) -> (r:
    Next)
    ensures
        r@ == next(run@, context@, reply@, facts),
{
    let ScenarioRun { scenario, phase } = run;
    match phase {
        Phase::First => match scenario {
            Scenario::SpeechEndpointCheck => Next::Done(SpeechService::test_endpoint_check(reply)),
            Scenario::SpeechVoicesList => Next::Done(SpeechService::test_voices_list(reply, facts.into_voices())),
            Scenario::SpeechTokenExchange => Next::Done(SpeechService::test_token_exchange(reply)),
            Scenario::SpeechSttShort => Next::Done(SpeechService::test_stt_short(reply)),
            Scenario::SpeechSttRest => Next::Done(SpeechService::test_stt_rest(reply)),
            Scenario::SpeechTts => Next::Done(SpeechService::test_tts(reply)),
            Scenario::TranslatorEndpointCheck => Next::Done(TranslatorService::test_endpoint_check(reply)),
            Scenario::TranslatorLanguages => Next::Done(TranslatorService::test_languages(reply)),
            Scenario::TranslatorDetect => Next::Done(TranslatorService::test_detect(reply, facts.into_detection())),
            Scenario::TranslatorTranslate => Next::Done(TranslatorService::test_translate(reply, facts.into_translation())),
            Scenario::LanguageSentiment => Next::Done(LanguageService::test_sentiment(reply)),
            Scenario::LanguageLanguageDetection => Next::Done(LanguageService::test_language_detection(reply)),
            Scenario::LanguageEntities => Next::Done(LanguageService::test_entities(reply)),
            Scenario::LanguageKeyPhrases => Next::Done(LanguageService::test_key_phrases(reply)),
            Scenario::LanguagePiiDetection => Next::Done(LanguageService::test_pii_detection(reply)),
            Scenario::LanguageEntityLinking => Next::Done(LanguageService::test_entity_linking(reply)),
            Scenario::VisionAnalyzeImage => Next::Done(VisionService::test_analyze_image(reply)),
            Scenario::VisionReadText => Next::Done(VisionService::test_read_text(reply)),
            Scenario::VisionDetectObjects => Next::Done(VisionService::test_detect_objects(reply)),
            Scenario::VisionSmartCrops => Next::Done(VisionService::test_smart_crops(reply)),
            Scenario::VisionPeopleDetection => Next::Done(VisionService::test_people_detection(reply)),
            Scenario::LanguageSummarization => match LanguageService::test_summarization(reply) {
                JobStart::Accepted(url) => follow_job(
                    context,
                    scenario,
                    url,
                    SUMMARY_ATTEMPTS,
                    SUMMARY_WAIT_MILLIS,
                ),
                JobStart::Finished(o) => Next::Done(o),
            },
            Scenario::DocumentLayout | Scenario::DocumentRead => match DocumentIntelligenceService::analyze_document(
                reply,
            ) {
                AnalysisStart::Accepted(url) => follow_job(
                    context,
                    scenario,
                    url,
                    POLL_ATTEMPTS,
                    POLL_WAIT_MILLIS,
                ),
                AnalysisStart::Finished(o) => Next::Done(o),
            },
        },
        Phase::Following { url, attempts_left } => {
            if scenario == Scenario::LanguageSummarization {
                match LanguageService::summarization_step(attempts_left, reply) {
                    JobStep::Again { attempts_left, wait_millis } => follow_job(
                        context,
                        scenario,
                        url,
                        attempts_left,
                        wait_millis,
                    ),
                    JobStep::Finished(o) => Next::Done(o),
                }
            } else {
                match DocumentIntelligenceService::poll_operation(attempts_left, reply) {
                    PollStep::Again { attempts_left, wait_millis } => follow_job(
                        context,
                        scenario,
                        url,
                        attempts_left,
                        wait_millis,
                    ),
                    PollStep::Finished(o) => Next::Done(o),
                }
            }
        },
    }
}

/// A run comes to an end: every step that asks for another request leaves
/// fewer looks than there were, and the first request is followed by
/// thirty looks at most.
pub proof fn law_runs_end(
    run: ScenarioRunView,
    context: TestContextView,
    reply: HttpReplyView,
    facts: Facts,
)
    ensures
        next(run, context, reply, facts) matches NextView::Send { run: after, .. } ==> (
        after.phase matches PhaseView::Following { attempts_left: left, .. } && left >= 1 && (
        match run.phase {
            PhaseView::First => left <= POLL_ATTEMPTS,
            PhaseView::Following { attempts_left, .. } => left < attempts_left,
        })),
{
}

} // verus!
