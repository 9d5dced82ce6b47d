//! The services that can be tested, the scenarios they offer and the
//! results of running them.

pub mod document_intelligence;
pub mod exchange;
pub mod language;
pub mod runner;
pub mod speech;
pub mod translator;
pub mod vision;

use crate::auth::{Credentials, CredentialsView};
use crate::config::Cloud;
use crate::services::document_intelligence::DocumentIntelligenceService;
use crate::services::language::LanguageService;
use crate::services::speech::SpeechService;
use crate::services::translator::TranslatorService;
use crate::services::vision::VisionService;
use crate::text::{lowercase_of, opt_view, str_eq, strings_view};
use vstd::prelude::*;
use vstd::slice::slice_to_vec;
use vstd::string::*;

verus! {

/// Type of input file required.
#[derive(Debug, Clone, Copy, PartialEq, Eq, Structural)]
pub enum InputType {
    Audio,
    Image,
    Document,
    Text,
}

impl InputType {
    /// The name of the type in messages.
    pub open spec fn name_text(self) -> Seq<char> {
        match self {
            InputType::Audio => "audio"@,
            InputType::Image => "image"@,
            InputType::Document => "document"@,
            InputType::Text => "text"@,
        }
    }

    /// The name of the type in messages.
    pub fn name(&self) -> (r: &'static str)
        ensures
            r@ == self.name_text(),
    {
        match self {
            InputType::Audio => "audio",
            InputType::Image => "image",
            InputType::Document => "document",
            InputType::Text => "text",
        }
    }
}

/// The name of an input type that may be missing; empty where it is.
pub open spec fn input_name(input_type: Option<InputType>) -> Seq<char> {
    match input_type {
        Some(t) => t.name_text(),
        None => Seq::empty(),
    }
}

/// Test scenario definition.
#[derive(Debug, Clone, Copy)]
pub struct TestScenario {
    /// Unique identifier for the scenario.
    pub id: &'static str,
    /// Human-readable name.
    pub name: &'static str,
    /// Description of what this scenario tests.
    pub description: &'static str,
    /// Whether this scenario requires input data (audio, image, document).
    pub requires_input: bool,
    /// Type of input required (if any).
    pub input_type: Option<InputType>,
}

pub ghost struct TestScenarioView {
    pub id: Seq<char>,
    pub name: Seq<char>,
    pub description: Seq<char>,
    pub requires_input: bool,
    pub input_type: Option<InputType>,
}

impl View for TestScenario {
    type V = TestScenarioView;

    open spec fn view(&self) -> TestScenarioView {
        TestScenarioView {
            id: self.id@,
            name: self.name@,
            description: self.description@,
            requires_input: self.requires_input,
            input_type: self.input_type,
        }
    }
}

/// The views of a list of scenarios, in order.
pub open spec fn scenarios_view(v: Seq<TestScenario>) -> Seq<TestScenarioView> {
    v.map_values(|s: TestScenario| s@)
}

/// A scenario that needs no input data.
pub open spec fn offered(
    id: Seq<char>,
    name: Seq<char>,
    description: Seq<char>,
    input_type: Option<InputType>,
) -> TestScenarioView {
    TestScenarioView { id, name, description, requires_input: false, input_type }
}

pub(crate) fn offer(
    id: &'static str,
    name: &'static str,
    description: &'static str,
    input_type: Option<InputType>,
) -> (r: TestScenario)
    ensures
        r@ == offered(id@, name@, description@, input_type),
{
    TestScenario { id, name, description, requires_input: false, input_type }
}

/// The scenario with the given identifier, the first where several have
/// it.
pub open spec fn scenario_by_id(scenarios: Seq<TestScenarioView>, id: Seq<char>) -> Option<
    TestScenarioView,
>
    decreases scenarios.len(),
{
    if scenarios.len() == 0 {
        None
    } else if scenarios.first().id == id {
        Some(scenarios.first())
    } else {
        scenario_by_id(scenarios.drop_first(), id)
    }
}

/// Finds the scenario with the given identifier.
pub fn find_scenario(scenarios: &Vec<TestScenario>, id: &str) -> (r: Option<TestScenario>)
    ensures
        match r {
            Some(s) => scenario_by_id(scenarios_view(scenarios@), id@) == Some(s@),
            None => scenario_by_id(scenarios_view(scenarios@), id@) is None,
        },
{
    let ghost all = scenarios_view(scenarios@);
    let mut i: usize = 0;
    assert(all.skip(0) =~= all);
    while i < scenarios.len()
        invariant
            i <= scenarios.len(),
            all == scenarios_view(scenarios@),
            scenario_by_id(all, id@) == scenario_by_id(all.skip(i as int), id@),
        decreases scenarios.len() - i,
    {
        assert(all.skip(i as int).drop_first() =~= all.skip(i + 1));
        if str_eq(scenarios[i].id, id) {
            return Some(scenarios[i]);
        }
        i += 1;
    }
    None
}

/// Result of a single test scenario.
#[derive(Debug)]
pub struct TestResult {
    /// Scenario ID.
    pub scenario_id: String,
    /// Scenario name.
    pub scenario_name: String,
    /// Whether the test passed.
    pub success: bool,
    /// Duration in milliseconds.
    pub duration_ms: u64,
    /// Error message if failed.
    pub error: Option<String>,
    /// Additional details/diagnostics.
    pub details: Option<String>,
    /// HTTP status code if applicable.
    pub http_status: Option<u16>,
}

pub ghost struct TestResultView {
    pub scenario_id: Seq<char>,
    pub scenario_name: Seq<char>,
    pub success: bool,
    pub duration_ms: u64,
    pub error: Option<Seq<char>>,
    pub details: Option<Seq<char>>,
    pub http_status: Option<u16>,
}

impl View for TestResult {
    type V = TestResultView;

    open spec fn view(&self) -> TestResultView {
        TestResultView {
            scenario_id: self.scenario_id@,
            scenario_name: self.scenario_name@,
            success: self.success,
            duration_ms: self.duration_ms,
            error: opt_view(self.error),
            details: opt_view(self.details),
            http_status: self.http_status,
        }
    }
}

impl Clone for TestResult {
    fn clone(&self) -> (r: TestResult)
        ensures
            r@ == self@,
    {
        TestResult {
            scenario_id: self.scenario_id.clone(),
            scenario_name: self.scenario_name.clone(),
            success: self.success,
            duration_ms: self.duration_ms,
            error: crate::text::clone_opt(&self.error),
            details: crate::text::clone_opt(&self.details),
            http_status: self.http_status,
        }
    }
}

impl TestResultView {
    /// The result of a scenario that passed.
    pub open spec fn success(id: Seq<char>, name: Seq<char>, duration_ms: u64) -> TestResultView {
        TestResultView {
            scenario_id: id,
            scenario_name: name,
            success: true,
            duration_ms,
            error: None,
            details: None,
            http_status: None,
        }
    }

    /// The result of a scenario that failed with `error`.
    pub open spec fn failure(
        id: Seq<char>,
        name: Seq<char>,
        duration_ms: u64,
        error: Seq<char>,
    ) -> TestResultView {
        TestResultView {
            scenario_id: id,
            scenario_name: name,
            success: false,
            duration_ms,
            error: Some(error),
            details: None,
            http_status: None,
        }
    }

    /// The result of a scenario that was not run, for `reason`.
    pub open spec fn skipped(id: Seq<char>, name: Seq<char>, reason: Seq<char>) -> TestResultView {
        TestResultView::failure(id, name, 0, "Skipped: "@ + reason)
    }

    /// Whether the result stands for a scenario that was not run: it did
    /// not pass, and its error begins with "Skipped".
    pub open spec fn is_skipped(self) -> bool {
        !self.success && self.error is Some && "Skipped"@.is_prefix_of(self.error->0)
    }
}

impl TestResult {
    pub fn success(scenario_id: &str, scenario_name: &str, duration_ms: u64) -> (r: TestResult)
        ensures
            r@ == TestResultView::success(scenario_id@, scenario_name@, duration_ms),
    {
        TestResult {
            scenario_id: scenario_id.to_owned(),
            scenario_name: scenario_name.to_owned(),
            success: true,
            duration_ms,
            error: None,
            details: None,
            http_status: None,
        }
    }

    pub fn failure(scenario_id: &str, scenario_name: &str, duration_ms: u64, error: String) -> (r:
        TestResult)
        ensures
            r@ == TestResultView::failure(scenario_id@, scenario_name@, duration_ms, error@),
    {
        TestResult {
            scenario_id: scenario_id.to_owned(),
            scenario_name: scenario_name.to_owned(),
            success: false,
            duration_ms,
            error: Some(error),
            details: None,
            http_status: None,
        }
    }

    pub fn with_details(self, details: String) -> (r: TestResult)
        ensures
            r@ == (TestResultView { details: Some(details@), ..self@ }),
    {
        TestResult { details: Some(details), ..self }
    }

    pub fn with_http_status(self, status: u16) -> (r: TestResult)
        ensures
            r@ == (TestResultView { http_status: Some(status), ..self@ }),
    {
        TestResult { http_status: Some(status), ..self }
    }

    pub fn skipped(scenario_id: &str, scenario_name: &str, reason: String) -> (r: TestResult)
        ensures
            r@ == TestResultView::skipped(scenario_id@, scenario_name@, reason@),
    {
        let mut error = "Skipped: ".to_owned();
        error.append(reason.as_str());
        TestResult {
            scenario_id: scenario_id.to_owned(),
            scenario_name: scenario_name.to_owned(),
            success: false,
            duration_ms: 0,
            error: Some(error),
            details: None,
            http_status: None,
        }
    }

    /// Whether the result stands for a scenario that was not run.
    pub fn is_skipped(&self) -> (r: bool)
        ensures
            r == self@.is_skipped(),
    {
        if self.success {
            return false;
        }
        match &self.error {
            Some(e) => crate::text::str_starts_with(e.as_str(), "Skipped"),
            None => false,
        }
    }
}

/// The views of a list of results, in order.
pub open spec fn results_view(v: Seq<TestResult>) -> Seq<TestResultView> {
    v.map_values(|r: TestResult| r@)
}

/// How many of the results passed.
pub open spec fn count_passed(results: Seq<TestResultView>) -> nat
    decreases results.len(),
{
    if results.len() == 0 {
        0
    } else {
        count_passed(results.drop_last()) + if results.last().success {
            1nat
        } else {
            0nat
        }
    }
}

/// How many of the results were skipped.
pub open spec fn count_skipped(results: Seq<TestResultView>) -> nat
    decreases results.len(),
{
    if results.len() == 0 {
        0
    } else {
        count_skipped(results.drop_last()) + if results.last().is_skipped() {
            1nat
        } else {
            0nat
        }
    }
}

/// How many of the results did not pass, skipped ones included.
pub open spec fn count_not_passed(results: Seq<TestResultView>) -> nat
    decreases results.len(),
{
    if results.len() == 0 {
        0
    } else {
        count_not_passed(results.drop_last()) + if results.last().success {
            0nat
        } else {
            1nat
        }
    }
}

pub proof fn lemma_counts_bounded(results: Seq<TestResultView>)
    ensures
        count_passed(results) + count_not_passed(results) == results.len(),
        count_skipped(results) <= count_not_passed(results),
    decreases results.len(),
{
    if results.len() > 0 {
        lemma_counts_bounded(results.drop_last());
    }
}

/// Results from testing a complete service.
#[derive(Debug)]
pub struct ServiceTestResults {
    /// Service name.
    pub service_name: String,
    /// Service endpoint that was tested.
    pub endpoint: String,
    /// Individual test results.
    pub results: Vec<TestResult>,
    /// Total duration in milliseconds.
    pub total_duration_ms: u64,
}

pub ghost struct ServiceTestResultsView {
    pub service_name: Seq<char>,
    pub endpoint: Seq<char>,
    pub results: Seq<TestResultView>,
    pub total_duration_ms: u64,
}

impl View for ServiceTestResults {
    type V = ServiceTestResultsView;

    open spec fn view(&self) -> ServiceTestResultsView {
        ServiceTestResultsView {
            service_name: self.service_name@,
            endpoint: self.endpoint@,
            results: results_view(self.results@),
            total_duration_ms: self.total_duration_ms,
        }
    }
}

impl ServiceTestResults {
    /// How many scenarios passed.
    pub fn passed(&self) -> (r: usize)
        ensures
            r == count_passed(self@.results),
    {
        let ghost all = self@.results;
        let mut n: usize = 0;
        let mut i: usize = 0;
        assert(all.take(0) =~= Seq::<TestResultView>::empty());
        while i < self.results.len()
            invariant
                i <= self.results.len(),
                all == self@.results,
                n == count_passed(all.take(i as int)),
                n <= i,
            decreases self.results.len() - i,
        {
            assert(all.take(i + 1).drop_last() =~= all.take(i as int));
            if self.results[i].success {
                n += 1;
            }
            i += 1;
        }
        assert(all.take(self.results.len() as int) =~= all);
        n
    }

    /// How many scenarios did not pass, skipped ones included.
    pub fn failed(&self) -> (r: usize)
        ensures
            r == count_not_passed(self@.results),
    {
        let ghost all = self@.results;
        let mut n: usize = 0;
        let mut i: usize = 0;
        assert(all.take(0) =~= Seq::<TestResultView>::empty());
        while i < self.results.len()
            invariant
                i <= self.results.len(),
                all == self@.results,
                n == count_not_passed(all.take(i as int)),
                n <= i,
            decreases self.results.len() - i,
        {
            assert(all.take(i + 1).drop_last() =~= all.take(i as int));
            if !self.results[i].success {
                n += 1;
            }
            i += 1;
        }
        assert(all.take(self.results.len() as int) =~= all);
        n
    }

    /// Whether every scenario passed.
    pub fn all_passed(&self) -> (r: bool)
        ensures
            r == (forall|i: int| 0 <= i < self@.results.len() ==> self@.results[i].success),
    {
        let mut i: usize = 0;
        while i < self.results.len()
            invariant
                i <= self.results.len(),
                forall|k: int| 0 <= k < i ==> self@.results[k].success,
            decreases self.results.len() - i,
        {
            if !self.results[i].success {
                assert(!self@.results[i as int].success);
                return false;
            }
            i += 1;
        }
        true
    }
}

/// Input data for tests.
#[derive(Debug)]
pub struct TestInput {
    /// Raw data bytes.
    pub data: Vec<u8>,
    /// Content type (MIME type).
    pub content_type: String,
    /// File name (if applicable).
    pub file_name: Option<String>,
    /// Text input (for text-based tests).
    pub text: Option<String>,
}

pub ghost struct TestInputView {
    pub data: Seq<u8>,
    pub content_type: Seq<char>,
    pub file_name: Option<Seq<char>>,
    pub text: Option<Seq<char>>,
}

impl View for TestInput {
    type V = TestInputView;

    open spec fn view(&self) -> TestInputView {
        TestInputView {
            data: self.data@,
            content_type: self.content_type@,
            file_name: opt_view(self.file_name),
            text: opt_view(self.text),
        }
    }
}

impl Clone for TestInput {
    fn clone(&self) -> (r: TestInput)
        ensures
            r@ == self@,
    {
        TestInput {
            data: self.data.clone(),
            content_type: self.content_type.clone(),
            file_name: crate::text::clone_opt(&self.file_name),
            text: crate::text::clone_opt(&self.text),
        }
    }
}

impl TestInputView {
    /// Input that is raw data of a content type, without name or text.
    pub open spec fn raw(data: Seq<u8>, content_type: Seq<char>) -> TestInputView {
        TestInputView { data, content_type, file_name: None, text: None }
    }
}

impl TestInput {
    /// Text input: the data are the bytes of the text in UTF-8.
    pub fn text(text: String) -> (r: TestInput)
        ensures
            r@ == (TestInputView {
                data: vstd::utf8::encode_utf8(text@),
                content_type: "text/plain"@,
                file_name: None,
                text: Some(text@),
            }),
    {
        TestInput {
            data: slice_to_vec(text.as_str().as_bytes()),
            content_type: "text/plain".to_owned(),
            file_name: None,
            text: Some(text),
        }
    }

    pub fn audio(data: Vec<u8>, content_type: &str) -> (r: TestInput)
        ensures
            r@ == TestInputView::raw(data@, content_type@),
    {
        TestInput { data, content_type: content_type.to_owned(), file_name: None, text: None }
    }

    pub fn image(data: Vec<u8>, content_type: &str) -> (r: TestInput)
        ensures
            r@ == TestInputView::raw(data@, content_type@),
    {
        TestInput { data, content_type: content_type.to_owned(), file_name: None, text: None }
    }

    pub fn document(data: Vec<u8>, content_type: &str) -> (r: TestInput)
        ensures
            r@ == TestInputView::raw(data@, content_type@),
    {
        TestInput { data, content_type: content_type.to_owned(), file_name: None, text: None }
    }
}

/// Test context passed to service implementations.
#[derive(Debug)]
pub struct TestContext {
    /// Credentials for authentication.
    pub credentials: Credentials,
    /// Request timeout in seconds.
    pub timeout_secs: u64,
    /// Cloud environment.
    pub cloud: Cloud,
    /// Region.
    pub region: String,
    /// Optional custom endpoint.
    pub endpoint: Option<String>,
    /// Optional input data.
    pub input: Option<TestInput>,
    /// Verbose output.
    pub verbose: bool,
}

pub ghost struct TestContextView {
    pub credentials: CredentialsView,
    pub timeout_secs: u64,
    pub cloud: Cloud,
    pub region: Seq<char>,
    pub endpoint: Option<Seq<char>>,
    pub input: Option<TestInputView>,
    pub verbose: bool,
}

impl View for TestContext {
    type V = TestContextView;

    open spec fn view(&self) -> TestContextView {
        TestContextView {
            credentials: self.credentials@,
            timeout_secs: self.timeout_secs,
            cloud: self.cloud,
            region: self.region@,
            endpoint: opt_view(self.endpoint),
            input: match self.input {
                Some(i) => Some(i@),
                None => None,
            },
            verbose: self.verbose,
        }
    }
}

impl TestContext {
    /// A context without custom endpoint and input, not verbose.
    pub fn new(credentials: Credentials, cloud: Cloud, region: String, timeout_secs: u64) -> (r:
        TestContext)
        ensures
            r@ == (TestContextView {
                credentials: credentials@,
                timeout_secs,
                cloud,
                region: region@,
                endpoint: None,
                input: None,
                verbose: false,
            }),
    {
        TestContext {
            credentials,
            timeout_secs,
            cloud,
            region,
            endpoint: None,
            input: None,
            verbose: false,
        }
    }

    pub fn with_endpoint(self, endpoint: Option<String>) -> (r: TestContext)
        ensures
            r@ == (TestContextView { endpoint: opt_view(endpoint), ..self@ }),
    {
        TestContext { endpoint, ..self }
    }

    pub fn with_input(self, input: Option<TestInput>) -> (r: TestContext)
        ensures
            r@ == (TestContextView {
                input: match input {
                    Some(i) => Some(i@),
                    None => None,
                },
                ..self@
            }),
    {
        TestContext { input, ..self }
    }

    pub fn with_verbose(self, verbose: bool) -> (r: TestContext)
        ensures
            r@ == (TestContextView { verbose, ..self@ }),
    {
        TestContext { verbose, ..self }
    }
}

/// The regional endpoint of the cognitive services in a cloud.
pub open spec fn regional_endpoint(region: Seq<char>, cloud: Cloud) -> Seq<char> {
    "https://"@ + region + cloud.cognitive_host_suffix()
}

pub(crate) fn regional(region: &str, cloud: Cloud) -> (r: String)
    ensures
        r@ == regional_endpoint(region@, cloud),
{
    let mut r = "https://".to_owned();
    r.append(region);
    match cloud {
        Cloud::Global => r.append(".api.cognitive.microsoft.com"),
        Cloud::China => r.append(".api.cognitive.azure.cn"),
    }
    r
}

/// What every service can say of itself.
pub trait AzureService {
    /// Service name (e.g., "speech", "translator").
    fn name(&self) -> (r: &'static str);

    /// Human-readable display name.
    fn display_name(&self) -> (r: &'static str);

    /// Get the base endpoint URL for this service.
    fn get_endpoint(&self, region: &str, cloud: Cloud, custom_endpoint: Option<&str>) -> (r:
        String);

    /// List available test scenarios.
    fn list_scenarios(&self) -> (r: Vec<TestScenario>);
}

/// What is done with one scenario of a service.
#[derive(Debug)]
pub enum Step {
    /// The scenario is run.
    Run(TestScenario),
    /// The scenario is not run; this result stands for it.
    Skip(TestResult),
}

pub ghost enum StepView {
    Run(TestScenarioView),
    Skip(TestResultView),
}

impl View for Step {
    type V = StepView;

    open spec fn view(&self) -> StepView {
        match self {
            Step::Run(s) => StepView::Run(s@),
            Step::Skip(r) => StepView::Skip(r@),
        }
    }
}

/// The views of a list of steps, in order.
pub open spec fn steps_view(v: Seq<Step>) -> Seq<StepView> {
    v.map_values(|s: Step| s@)
}

/// Whether a scenario is among those asked for; every scenario is where
/// none are named.
pub open spec fn is_enabled(enabled: Option<Seq<Seq<char>>>, id: Seq<char>) -> bool {
    match enabled {
        Some(names) => names.contains(id),
        None => true,
    }
}

/// What is done with one scenario that is enabled: it is skipped where it
/// requires input and there is none, else it is run.
pub open spec fn step_for(scenario: TestScenarioView, has_input: bool) -> StepView {
    if scenario.requires_input && !has_input {
        StepView::Skip(
            TestResultView::skipped(
                scenario.id,
                scenario.name,
                "Requires "@ + input_name(scenario.input_type) + " input"@,
            ),
        )
    } else {
        StepView::Run(scenario)
    }
}

/// The steps for the scenarios of a service, in their order: one for each
/// scenario that is enabled.
pub open spec fn plan(
    scenarios: Seq<TestScenarioView>,
    enabled: Option<Seq<Seq<char>>>,
    has_input: bool,
) -> Seq<StepView>
    decreases scenarios.len(),
{
    if scenarios.len() == 0 {
        Seq::empty()
    } else if is_enabled(enabled, scenarios.last().id) {
        plan(scenarios.drop_last(), enabled, has_input).push(step_for(scenarios.last(), has_input))
    } else {
        plan(scenarios.drop_last(), enabled, has_input)
    }
}

fn names_contain(names: &Vec<String>, id: &str) -> (r: bool)
    ensures
        r == strings_view(names@).contains(id@),
{
    let ghost all = strings_view(names@);
    let mut i: usize = 0;
    while i < names.len()
        invariant
            i <= names.len(),
            all == strings_view(names@),
            forall|k: int| 0 <= k < i ==> all[k] != id@,
        decreases names.len() - i,
    {
        if str_eq(names[i].as_str(), id) {
            assert(all[i as int] == id@);
            return true;
        }
        i += 1;
    }
    false
}

/// Decides what is done with the scenarios of a service: those that are not
/// asked for are left out, those that require input which is not there are
/// skipped, the others are run, all in the order of the list.
pub fn run_all_scenarios(
    scenarios: &Vec<TestScenario>,
    enabled_scenarios: Option<&Vec<String>>,
    has_input: bool,
) -> (r: Vec<Step>)
    ensures
        steps_view(r@) == plan(
            scenarios_view(scenarios@),
            match enabled_scenarios {
                Some(names) => Some(strings_view(names@)),
                None => None,
            },
            has_input,
        ),
{
    let ghost all = scenarios_view(scenarios@);
    let ghost enabled = match enabled_scenarios {
        Some(names) => Some(strings_view(names@)),
        None => None,
    };
    let mut steps: Vec<Step> = Vec::new();
    let mut i: usize = 0;
    assert(all.take(0) =~= Seq::<TestScenarioView>::empty());
    assert(steps_view(steps@) =~= Seq::<StepView>::empty());
    while i < scenarios.len()
        invariant
            i <= scenarios.len(),
            all == scenarios_view(scenarios@),
            enabled == match enabled_scenarios {
                Some(names) => Some(strings_view(names@)),
                None => None,
            },
            steps_view(steps@) == plan(all.take(i as int), enabled, has_input),
        decreases scenarios.len() - i,
    {
        assert(all.take(i + 1).drop_last() =~= all.take(i as int));
        let scenario = scenarios[i];
        let wanted = match enabled_scenarios {
            Some(names) => names_contain(names, scenario.id),
            None => true,
        };
        if wanted {
            let ghost before = steps_view(steps@);
            if scenario.requires_input && !has_input {
                let mut reason = "Requires ".to_owned();
                match scenario.input_type {
                    Some(t) => reason.append(t.name()),
                    None => {
                        assert(reason@ + Seq::<char>::empty() =~= reason@);
                    },
                }
                reason.append(" input");
                steps.push(Step::Skip(TestResult::skipped(scenario.id, scenario.name, reason)));
            } else {
                steps.push(Step::Run(scenario));
            }
            assert(steps_view(steps@) =~= before.push(step_for(all[i as int], has_input)));
        }
        i += 1;
    }
    assert(all.take(scenarios.len() as int) =~= all);
    steps
}

/// The services that can be tested.
#[derive(Debug, Clone, Copy, PartialEq, Eq, Structural)]
pub enum ServiceKind {
    Speech,
    Translator,
    Language,
    Vision,
    DocumentIntelligence,
}

impl ServiceKind {
    /// The name of the service in settings.
    pub open spec fn name_text(self) -> Seq<char> {
        match self {
            ServiceKind::Speech => "speech"@,
            ServiceKind::Translator => "translator"@,
            ServiceKind::Language => "language"@,
            ServiceKind::Vision => "vision"@,
            ServiceKind::DocumentIntelligence => "document_intelligence"@,
        }
    }

    /// The name of the service as it is shown.
    pub open spec fn display_name_text(self) -> Seq<char> {
        match self {
            ServiceKind::Speech => "Speech"@,
            ServiceKind::Translator => "Translator"@,
            ServiceKind::Language => "Language"@,
            ServiceKind::Vision => "Vision"@,
            ServiceKind::DocumentIntelligence => "Document Intelligence"@,
        }
    }

    /// The service that a word names, whatever its letter case.
    pub open spec fn named(name: Seq<char>) -> Option<ServiceKind> {
        ServiceKind::of_lowercase(lowercase_of(name))
    }

    /// The service that a word in lower case names.
    pub open spec fn of_lowercase(l: Seq<char>) -> Option<ServiceKind> {
        if l == "speech"@ {
            Some(ServiceKind::Speech)
        } else if l == "translator"@ {
            Some(ServiceKind::Translator)
        } else if l == "language"@ {
            Some(ServiceKind::Language)
        } else if l == "vision"@ {
            Some(ServiceKind::Vision)
        } else if l == "document_intelligence"@ || l == "document-intelligence"@ || l
            == "documentintelligence"@ {
            Some(ServiceKind::DocumentIntelligence)
        } else {
            None
        }
    }

    /// The base endpoint of the service.
    pub open spec fn endpoint_text(
        self,
        region: Seq<char>,
        cloud: Cloud,
        custom_endpoint: Option<Seq<char>>,
    ) -> Seq<char> {
        match self {
            ServiceKind::Speech => speech::endpoint_text(region, cloud, custom_endpoint),
            ServiceKind::Translator => translator::endpoint_text(cloud, custom_endpoint),
            _ => match custom_endpoint {
                Some(e) => e,
                None => regional_endpoint(region, cloud),
            },
        }
    }

    /// The scenarios that the service offers.
    pub open spec fn scenarios(self) -> Seq<TestScenarioView> {
        match self {
            ServiceKind::Speech => speech::scenarios(),
            ServiceKind::Translator => translator::scenarios(),
            ServiceKind::Language => language::scenarios(),
            ServiceKind::Vision => vision::scenarios(),
            ServiceKind::DocumentIntelligence => document_intelligence::scenarios(),
        }
    }

    /// Service name (e.g., "speech", "translator").
    pub fn name(&self) -> (r: &'static str)
        ensures
            r@ == self.name_text(),
    {
        match self {
            ServiceKind::Speech => SpeechService::new().name(),
            ServiceKind::Translator => TranslatorService::new().name(),
            ServiceKind::Language => LanguageService::new().name(),
            ServiceKind::Vision => VisionService::new().name(),
            ServiceKind::DocumentIntelligence => DocumentIntelligenceService::new().name(),
        }
    }

    /// Human-readable display name.
    pub fn display_name(&self) -> (r: &'static str)
        ensures
            r@ == self.display_name_text(),
    {
        match self {
            ServiceKind::Speech => SpeechService::new().display_name(),
            ServiceKind::Translator => TranslatorService::new().display_name(),
            ServiceKind::Language => LanguageService::new().display_name(),
            ServiceKind::Vision => VisionService::new().display_name(),
            ServiceKind::DocumentIntelligence => DocumentIntelligenceService::new().display_name(),
        }
    }

    /// Get the base endpoint URL for this service.
    pub fn get_endpoint(&self, region: &str, cloud: Cloud, custom_endpoint: Option<&str>) -> (r:
        String)
        ensures
            r@ == self.endpoint_text(
                region@,
                cloud,
                match custom_endpoint {
                    Some(e) => Some(e@),
                    None => None,
                },
            ),
    {
        match self {
            ServiceKind::Speech => SpeechService::new().get_endpoint(region, cloud, custom_endpoint),
            ServiceKind::Translator => TranslatorService::new().get_endpoint(
                region,
                cloud,
                custom_endpoint,
            ),
            ServiceKind::Language => LanguageService::new().get_endpoint(
                region,
                cloud,
                custom_endpoint,
            ),
            ServiceKind::Vision => VisionService::new().get_endpoint(region, cloud, custom_endpoint),
            ServiceKind::DocumentIntelligence => DocumentIntelligenceService::new().get_endpoint(
                region,
                cloud,
                custom_endpoint,
            ),
        }
    }

    /// List available test scenarios.
    pub fn list_scenarios(&self) -> (r: Vec<TestScenario>)
        ensures
            scenarios_view(r@) == self.scenarios(),
    {
        match self {
            ServiceKind::Speech => SpeechService::new().list_scenarios(),
            ServiceKind::Translator => TranslatorService::new().list_scenarios(),
            ServiceKind::Language => LanguageService::new().list_scenarios(),
            ServiceKind::Vision => VisionService::new().list_scenarios(),
            ServiceKind::DocumentIntelligence => DocumentIntelligenceService::new().list_scenarios(),
        }
    }
}

/// Get all available services, in the order in which they are tested.
pub fn get_all_services() -> (r: Vec<ServiceKind>)
    ensures
        r@ == seq![
            ServiceKind::Speech,
            ServiceKind::Translator,
            ServiceKind::Language,
            ServiceKind::Vision,
            ServiceKind::DocumentIntelligence,
        ],
{
    let mut r: Vec<ServiceKind> = Vec::new();
    r.push(ServiceKind::Speech);
    r.push(ServiceKind::Translator);
    r.push(ServiceKind::Language);
    r.push(ServiceKind::Vision);
    r.push(ServiceKind::DocumentIntelligence);
    assert(r@ =~= seq![
        ServiceKind::Speech,
        ServiceKind::Translator,
        ServiceKind::Language,
        ServiceKind::Vision,
        ServiceKind::DocumentIntelligence,
    ]);
    r
}

/// Get a service by name, whatever the letter case of the name.
pub fn get_service(name: &str) -> (r: Option<ServiceKind>)
    ensures
        r == ServiceKind::named(name@),
{
    let low = name.to_lowercase();
    get_service_of_lowercase(low.as_str())
}

/// Get a service by its name in lower case: each service has its name, and
/// Document Intelligence also answers to the spellings with a hyphen and
/// without a separator.
pub fn get_service_of_lowercase(l: &str) -> (r: Option<ServiceKind>)
    ensures
        r == ServiceKind::of_lowercase(l@),
{
    if str_eq(l, "speech") {
        Some(ServiceKind::Speech)
    } else if str_eq(l, "translator") {
        Some(ServiceKind::Translator)
    } else if str_eq(l, "language") {
        Some(ServiceKind::Language)
    } else if str_eq(l, "vision") {
        Some(ServiceKind::Vision)
    } else if str_eq(l, "document_intelligence") || str_eq(l, "document-intelligence") || str_eq(
        l,
        "documentintelligence",
    ) {
        Some(ServiceKind::DocumentIntelligence)
    } else {
        None
    }
}

/// The result of a scenario that the service does not offer.
pub fn unknown_scenario(scenario_id: &str) -> (r: TestResult)
    ensures
        r@ == TestResultView::failure(
            scenario_id@,
            "Unknown"@,
            0,
            "Unknown scenario: "@ + scenario_id@,
        ),
{
    let mut error = "Unknown scenario: ".to_owned();
    error.append(scenario_id);
    TestResult::failure(scenario_id, "Unknown", 0, error)
}

/// What one scenario came to: the details of its success, or the HTTP
/// status (zero where there was none) and the error of its failure.
#[derive(Debug)]
pub enum Outcome {
    Passed(String),
    Failed { status: u16, error: String },
}

pub ghost enum OutcomeView {
    Passed(Seq<char>),
    Failed { status: u16, error: Seq<char> },
}

impl View for Outcome {
    type V = OutcomeView;

    open spec fn view(&self) -> OutcomeView {
        match self {
            Outcome::Passed(d) => OutcomeView::Passed(d@),
            Outcome::Failed { status, error } => OutcomeView::Failed {
                status: *status,
                error: error@,
            },
        }
    }
}

/// The result of a scenario for its outcome: a success carries the details,
/// a failure the error and, where there was a response, its status.
pub open spec fn result_of(scenario: TestScenarioView, outcome: OutcomeView, duration_ms: u64) -> TestResultView {
    match outcome {
        OutcomeView::Passed(details) => TestResultView {
            details: Some(details),
            ..TestResultView::success(scenario.id, scenario.name, duration_ms)
        },
        OutcomeView::Failed { status, error } => TestResultView {
            http_status: if status > 0 {
                Some(status)
            } else {
                None
            },
            ..TestResultView::failure(scenario.id, scenario.name, duration_ms, error)
        },
    }
}

/// The result of a scenario that took `duration_ms` milliseconds and came
/// to `outcome`.
pub fn scenario_result(scenario: &TestScenario, outcome: Outcome, duration_ms: u64) -> (r:
    TestResult)
    ensures
        r@ == result_of(scenario@, outcome@, duration_ms),
{
    match outcome {
        Outcome::Passed(details) => TestResult::success(
            scenario.id,
            scenario.name,
            duration_ms,
        ).with_details(details),
        Outcome::Failed { status, error } => {
            let result = TestResult::failure(scenario.id, scenario.name, duration_ms, error);
            if status > 0 {
                result.with_http_status(status)
            } else {
                result
            }
        },
    }
}

} // verus!
