//! Reports of test runs and the formats in which they are written: text for
//! people, JSON for programs and JUnit XML for build servers.

use crate::config::OutputFormat;
use crate::json::{
    compact_text_of, items_view, member, members_view, named, optional_text, pretty_text_of, Json,
    JsonView, Member,
};
use crate::paint::{
    extend, joined, plain, plain_text, push_span, push_text, render, render_plain, shade, shade_of,
    shows, spans_view, tinted, Span, SpanView, Tint,
};
use crate::services::{
    count_not_passed, count_passed, count_skipped, results_view, ServiceTestResults,
    ServiceTestResultsView, TestResult, TestResultView,
};
use crate::text::{chars_of, decimal, millis_as_seconds, seconds_text, u64_to_decimal};
use crate::time::{rfc3339_of, to_rfc3339, Timestamp};
use vstd::prelude::*;
use vstd::string::*;

verus! {

pub const REPORT_TITLE: &'static str = "\nAzure AI Services Connectivity Test Results\n";

pub const REPORT_RULE: &'static str = "==================================================\n\n";

pub const XML_HEADER: &'static str = "<?xml version=\"1.0\" encoding=\"UTF-8\"?>\n";

/// Summary of all test results. A count that does not fit stands at the
/// largest number.
#[derive(Debug, Clone, Copy, PartialEq, Eq, Structural)]
pub struct TestSummary {
    pub total: usize,
    pub passed: usize,
    pub failed: usize,
    pub skipped: usize,
}

/// The views of a list of service results, in order.
pub open spec fn services_view(v: Seq<ServiceTestResults>) -> Seq<ServiceTestResultsView> {
    v.map_values(|s: ServiceTestResults| s@)
}

/// How many results there are in all services.
pub open spec fn total_results(services: Seq<ServiceTestResultsView>) -> nat
    decreases services.len(),
{
    if services.len() == 0 {
        0
    } else {
        total_results(services.drop_last()) + services.last().results.len()
    }
}

/// How many results passed in all services.
pub open spec fn total_passed(services: Seq<ServiceTestResultsView>) -> nat
    decreases services.len(),
{
    if services.len() == 0 {
        0
    } else {
        total_passed(services.drop_last()) + count_passed(services.last().results)
    }
}

/// How many results were skipped in all services.
pub open spec fn total_skipped(services: Seq<ServiceTestResultsView>) -> nat
    decreases services.len(),
{
    if services.len() == 0 {
        0
    } else {
        total_skipped(services.drop_last()) + count_skipped(services.last().results)
    }
}

/// How many results neither passed nor were skipped in all services.
pub open spec fn total_failed(services: Seq<ServiceTestResultsView>) -> nat
    decreases services.len(),
{
    if services.len() == 0 {
        0
    } else {
        (total_failed(services.drop_last()) + count_not_passed(services.last().results)
            - count_skipped(services.last().results)) as nat
    }
}

/// The milliseconds that all services took.
pub open spec fn total_duration(services: Seq<ServiceTestResultsView>) -> nat
    decreases services.len(),
{
    if services.len() == 0 {
        0
    } else {
        total_duration(services.drop_last()) + services.last().total_duration_ms as nat
    }
}

/// A number, or the largest that fits where it is larger.
pub open spec fn capped(n: nat, max: nat) -> nat {
    if n > max {
        max
    } else {
        n
    }
}

/// Complete test report.
#[derive(Debug)]
pub struct TestReport {
    pub timestamp: Timestamp,
    pub summary: TestSummary,
    pub total_duration_ms: u64,
    pub services: Vec<ServiceTestResults>,
}

pub ghost struct TestReportView {
    pub timestamp: Timestamp,
    pub summary: TestSummary,
    pub total_duration_ms: u64,
    pub services: Seq<ServiceTestResultsView>,
}

impl View for TestReport {
    type V = TestReportView;

    open spec fn view(&self) -> TestReportView {
        TestReportView {
            timestamp: self.timestamp,
            summary: self.summary,
            total_duration_ms: self.total_duration_ms,
            services: services_view(self.services@),
        }
    }
}

fn count_kinds(results: &Vec<TestResult>) -> (r: (usize, usize))
    ensures
        r.0 == count_passed(results_view(results@)),
        r.1 == count_skipped(results_view(results@)),
        r.0 + r.1 <= results.len(),
        count_skipped(results_view(results@)) <= count_not_passed(results_view(results@)),
        count_passed(results_view(results@)) + count_not_passed(results_view(results@))
            == results.len(),
{
    let ghost all = results_view(results@);
    let mut passed: usize = 0;
    let mut skipped: usize = 0;
    let mut i: usize = 0;
    assert(all.take(0) =~= Seq::<TestResultView>::empty());
    while i < results.len()
        invariant
            i <= results.len(),
            all == results_view(results@),
            passed == count_passed(all.take(i as int)),
            skipped == count_skipped(all.take(i as int)),
            passed + skipped <= i,
        decreases results.len() - i,
    {
        assert(all.take(i + 1).drop_last() =~= all.take(i as int));
        if results[i].success {
            passed += 1;
        } else if results[i].is_skipped() {
            skipped += 1;
        }
        i += 1;
    }
    assert(all.take(results.len() as int) =~= all);
    proof {
        crate::services::lemma_counts_bounded(all);
    }
    (passed, skipped)
}

impl TestReport {
    /// The report of a run that was finished at `timestamp`: the results of
    /// the services with their counts and the time they took together. A
    /// result counts as passed, as skipped where its error begins with
    /// "Skipped", and as failed otherwise.
    pub fn new(services: Vec<ServiceTestResults>, timestamp: Timestamp) -> (r: TestReport)
        ensures
            r@.timestamp == timestamp,
            r@.services == services_view(services@),
            r@.summary.total == capped(total_results(r@.services), usize::MAX as nat),
            r@.summary.passed == capped(total_passed(r@.services), usize::MAX as nat),
            r@.summary.failed == capped(total_failed(r@.services), usize::MAX as nat),
            r@.summary.skipped == capped(total_skipped(r@.services), usize::MAX as nat),
            r@.total_duration_ms == capped(total_duration(r@.services), u64::MAX as nat),
    {
        let ghost all = services_view(services@);
        let mut total: usize = 0;
        let mut passed: usize = 0;
        let mut failed: usize = 0;
        let mut skipped: usize = 0;
        let mut total_duration_ms: u64 = 0;
        let mut i: usize = 0;
        assert(all.take(0) =~= Seq::<ServiceTestResultsView>::empty());
        while i < services.len()
            invariant
                i <= services.len(),
                all == services_view(services@),
                total == capped(total_results(all.take(i as int)), usize::MAX as nat),
                passed == capped(total_passed(all.take(i as int)), usize::MAX as nat),
                failed == capped(total_failed(all.take(i as int)), usize::MAX as nat),
                skipped == capped(total_skipped(all.take(i as int)), usize::MAX as nat),
                total_duration_ms == capped(total_duration(all.take(i as int)), u64::MAX as nat),
            decreases services.len() - i,
        {
            assert(all.take(i + 1).drop_last() =~= all.take(i as int));
            let service = &services[i];
            let (p, s) = count_kinds(&service.results);
            let n = service.results.len();
            total = total.saturating_add(n);
            passed = passed.saturating_add(p);
            skipped = skipped.saturating_add(s);
            failed = failed.saturating_add(n - p - s);
            total_duration_ms = total_duration_ms.saturating_add(service.total_duration_ms);
            i += 1;
        }
        assert(all.take(services.len() as int) =~= all);
        TestReport {
            timestamp,
            summary: TestSummary { total, passed, failed, skipped },
            total_duration_ms,
            services,
        }
    }

    /// Whether no result counts as failed.
    pub fn all_passed(&self) -> (r: bool)
        ensures
            r == (self@.summary.failed == 0),
    {
        self.summary.failed == 0
    }
}

/// What an output formatter does.
pub trait OutputFormatter {
    fn format(&self, report: &TestReport) -> (r: String);
}

/// The mark of a result that passed.
pub open spec fn check_mark_text(colors: bool) -> Seq<char> {
    if colors {
        "\u{2713}"@
    } else {
        "[PASS]"@
    }
}

/// The mark of a result that failed.
pub open spec fn cross_mark_text(colors: bool) -> Seq<char> {
    if colors {
        "\u{2717}"@
    } else {
        "[FAIL]"@
    }
}

/// The mark of a result that was skipped.
pub open spec fn skip_mark_text(colors: bool) -> Seq<char> {
    if colors {
        "\u{25CB}"@
    } else {
        "[SKIP]"@
    }
}

/// The colour of a result: green where it passed, yellow where it was
/// skipped, red where it failed.
pub open spec fn result_tint(r: TestResultView) -> Tint {
    if r.success {
        Tint::Green
    } else if r.is_skipped() {
        Tint::Yellow
    } else {
        Tint::Red
    }
}

/// The mark of a result.
pub open spec fn result_mark(r: TestResultView, colors: bool) -> Seq<char> {
    if r.success {
        check_mark_text(colors)
    } else if r.is_skipped() {
        skip_mark_text(colors)
    } else {
        cross_mark_text(colors)
    }
}

/// The line of a result: mark, name and duration.
pub open spec fn result_line(r: TestResultView, colors: bool) -> Seq<SpanView> {
    seq![
        plain("  "@),
        tinted(shade_of(colors, result_tint(r)), result_mark(r, colors)),
        plain(" "@),
        tinted(shade_of(colors, result_tint(r)), r.scenario_name),
        plain(" ("@),
        plain(decimal(r.duration_ms as nat)),
        plain("ms)\n"@),
    ]
}

/// The line with the details of a result, where it has any.
pub open spec fn details_line(r: TestResultView, colors: bool) -> Seq<SpanView> {
    match r.details {
        Some(d) => seq![plain("    "@), tinted(shade_of(colors, Tint::Dim), d), plain("\n"@)],
        None => Seq::empty(),
    }
}

/// The line with the error of a result that did not pass, where it has
/// one.
pub open spec fn error_line(r: TestResultView, colors: bool) -> Seq<SpanView> {
    if !r.success && r.error is Some {
        if colors {
            seq![
                plain("    "@),
                tinted(Tint::Dim, "\u{2192}"@),
                plain(" "@),
                tinted(Tint::Red, r.error->0),
                plain("\n"@),
            ]
        } else {
            seq![plain("    -> "@), plain(r.error->0), plain("\n"@)]
        }
    } else {
        Seq::empty()
    }
}

/// The lines of one result.
pub open spec fn result_block(r: TestResultView, colors: bool) -> Seq<SpanView> {
    result_line(r, colors) + details_line(r, colors) + error_line(r, colors)
}

/// The lines of the results of a service, in order.
pub open spec fn results_block(results: Seq<TestResultView>, colors: bool) -> Seq<SpanView>
    decreases results.len(),
{
    if results.len() == 0 {
        Seq::empty()
    } else {
        results_block(results.drop_last(), colors) + result_block(results.last(), colors)
    }
}

/// The lines of one service: its name with its endpoint, its results, and
/// an empty line.
pub open spec fn service_block(s: ServiceTestResultsView, colors: bool) -> Seq<SpanView> {
    seq![
        tinted(shade_of(colors, Tint::Bold), s.service_name),
        plain(" ("@),
        tinted(shade_of(colors, Tint::Dim), s.endpoint),
        plain(")\n"@),
    ] + results_block(s.results, colors) + seq![plain("\n"@)]
}

/// The lines of the services, in order.
pub open spec fn services_block(services: Seq<ServiceTestResultsView>, colors: bool) -> Seq<
    SpanView,
>
    decreases services.len(),
{
    if services.len() == 0 {
        Seq::empty()
    } else {
        services_block(services.drop_last(), colors) + service_block(services.last(), colors)
    }
}

/// The lines of the summary.
pub open spec fn summary_block(report: TestReportView, colors: bool) -> Seq<SpanView> {
    seq![
        plain("Summary\n"@),
        plain("  Total: "@),
        tinted(shade_of(colors, Tint::Bold), decimal(report.summary.total as nat)),
        plain(" | "@),
        tinted(
            shade_of(colors, Tint::Green),
            "Passed: "@ + decimal(report.summary.passed as nat),
        ),
        plain(" | "@),
        tinted(shade_of(colors, Tint::Red), "Failed: "@ + decimal(report.summary.failed as nat)),
        plain(" | "@),
        tinted(
            shade_of(colors, Tint::Yellow),
            "Skipped: "@ + decimal(report.summary.skipped as nat),
        ),
        plain("\n"@),
        plain("  Duration: "@),
        plain(decimal(report.total_duration_ms as nat)),
        plain("ms\n"@),
    ]
}

/// The report for people, as pieces of text: a title, the services with
/// their results, and the summary.
pub open spec fn human_layout(report: TestReportView, colors: bool) -> Seq<SpanView> {
    seq![plain(REPORT_TITLE@), plain(REPORT_RULE@)] + services_block(report.services, colors)
        + summary_block(report, colors)
}

/// Human-readable console output formatter.
#[derive(Debug, Clone, Copy)]
pub struct HumanFormatter {
    use_colors: bool,
}

impl HumanFormatter {
    pub fn new(use_colors: bool) -> (r: HumanFormatter)
        ensures
            r.colors() == use_colors,
    {
        HumanFormatter { use_colors }
    }

    /// Whether the output is coloured.
    pub closed spec fn colors(self) -> bool {
        self.use_colors
    }

    /// Whether the output is coloured.
    pub fn use_colors(&self) -> (r: bool)
        ensures
            r == self.colors(),
    {
        self.use_colors
    }

    pub fn check_mark(&self) -> (r: &'static str)
        ensures
            r@ == check_mark_text(self.colors()),
    {
        if self.use_colors {
            "\u{2713}"
        } else {
            "[PASS]"
        }
    }

    pub fn cross_mark(&self) -> (r: &'static str)
        ensures
            r@ == cross_mark_text(self.colors()),
    {
        if self.use_colors {
            "\u{2717}"
        } else {
            "[FAIL]"
        }
    }

    pub fn skip_mark(&self) -> (r: &'static str)
        ensures
            r@ == skip_mark_text(self.colors()),
    {
        if self.use_colors {
            "\u{25CB}"
        } else {
            "[SKIP]"
        }
    }

    fn result_spans(&self, result: &TestResult) -> (r: Vec<Span>)
        ensures
            spans_view(r@) == result_block(result@, self.colors()),
    {
        let colors = self.use_colors;
        let skipped = result.is_skipped();
        let (mark, tint) = if result.success {
            (self.check_mark(), Tint::Green)
        } else if skipped {
            (self.skip_mark(), Tint::Yellow)
        } else {
            (self.cross_mark(), Tint::Red)
        };
        let mut b: Vec<Span> = Vec::new();
        push_text(&mut b, "  ");
        push_span(&mut b, shade(colors, tint), mark);
        push_text(&mut b, " ");
        push_span(&mut b, shade(colors, tint), result.scenario_name.as_str());
        push_text(&mut b, " (");
        let ms = u64_to_decimal(result.duration_ms);
        push_text(&mut b, ms.as_str());
        push_text(&mut b, "ms)\n");
        assert(spans_view(b@) =~= result_line(result@, colors));
        match &result.details {
            Some(d) => {
                push_text(&mut b, "    ");
                push_span(&mut b, shade(colors, Tint::Dim), d.as_str());
                push_text(&mut b, "\n");
            },
            None => {},
        }
        assert(spans_view(b@) =~= result_line(result@, colors) + details_line(result@, colors));
        if !result.success {
            match &result.error {
                Some(e) => {
                    if colors {
                        push_text(&mut b, "    ");
                        push_span(&mut b, Tint::Dim, "\u{2192}");
                        push_text(&mut b, " ");
                        push_span(&mut b, Tint::Red, e.as_str());
                        push_text(&mut b, "\n");
                    } else {
                        push_text(&mut b, "    -> ");
                        push_text(&mut b, e.as_str());
                        push_text(&mut b, "\n");
                    }
                },
                None => {},
            }
        }
        assert(spans_view(b@) =~= result_block(result@, colors));
        b
    }

    fn service_spans(&self, service: &ServiceTestResults) -> (r: Vec<Span>)
        ensures
            spans_view(r@) == service_block(service@, self.colors()),
    {
        let colors = self.use_colors;
        let ghost all = service@.results;
        let mut b: Vec<Span> = Vec::new();
        push_span(&mut b, shade(colors, Tint::Bold), service.service_name.as_str());
        push_text(&mut b, " (");
        push_span(&mut b, shade(colors, Tint::Dim), service.endpoint.as_str());
        push_text(&mut b, ")\n");
        let ghost head = spans_view(b@);
        assert(head =~= seq![
            tinted(shade_of(colors, Tint::Bold), service@.service_name),
            plain(" ("@),
            tinted(shade_of(colors, Tint::Dim), service@.endpoint),
            plain(")\n"@),
        ]);
        let mut i: usize = 0;
        assert(all.take(0) =~= Seq::<TestResultView>::empty());
        assert(head + Seq::<SpanView>::empty() =~= head);
        while i < service.results.len()
            invariant
                i <= service.results.len(),
                all == service@.results,
                colors == self.colors(),
                spans_view(b@) == head + results_block(all.take(i as int), colors),
            decreases service.results.len() - i,
        {
            assert(all.take(i + 1).drop_last() =~= all.take(i as int));
            let block = self.result_spans(&service.results[i]);
            extend(&mut b, block);
            assert(spans_view(b@) =~= head + results_block(all.take(i + 1), colors));
            i += 1;
        }
        assert(all.take(service.results.len() as int) =~= all);
        push_text(&mut b, "\n");
        assert(spans_view(b@) =~= service_block(service@, colors));
        b
    }

    fn summary_spans(&self, report: &TestReport) -> (r: Vec<Span>)
        ensures
            spans_view(r@) == summary_block(report@, self.colors()),
    {
        let colors = self.use_colors;
        let mut b: Vec<Span> = Vec::new();
        push_text(&mut b, "Summary\n");
        push_text(&mut b, "  Total: ");
        let total = u64_to_decimal(report.summary.total as u64);
        push_span(&mut b, shade(colors, Tint::Bold), total.as_str());
        push_text(&mut b, " | ");
        let mut passed = "Passed: ".to_owned();
        passed.append(u64_to_decimal(report.summary.passed as u64).as_str());
        push_span(&mut b, shade(colors, Tint::Green), passed.as_str());
        push_text(&mut b, " | ");
        let mut failed = "Failed: ".to_owned();
        failed.append(u64_to_decimal(report.summary.failed as u64).as_str());
        push_span(&mut b, shade(colors, Tint::Red), failed.as_str());
        push_text(&mut b, " | ");
        let mut skipped = "Skipped: ".to_owned();
        skipped.append(u64_to_decimal(report.summary.skipped as u64).as_str());
        push_span(&mut b, shade(colors, Tint::Yellow), skipped.as_str());
        push_text(&mut b, "\n");
        push_text(&mut b, "  Duration: ");
        let ms = u64_to_decimal(report.total_duration_ms);
        push_text(&mut b, ms.as_str());
        push_text(&mut b, "ms\n");
        assert(spans_view(b@) =~= summary_block(report@, colors));
        b
    }

    /// The report as pieces of text with their looks.
    pub fn layout(&self, report: &TestReport) -> (r: Vec<Span>)
        ensures
            spans_view(r@) == human_layout(report@, self.colors()),
    {
        let colors = self.use_colors;
        let ghost all = report@.services;
        let mut b: Vec<Span> = Vec::new();
        push_text(&mut b, REPORT_TITLE);
        push_text(&mut b, REPORT_RULE);
        let ghost head = spans_view(b@);
        assert(head =~= seq![plain(REPORT_TITLE@), plain(REPORT_RULE@)]);
        let mut i: usize = 0;
        assert(all.take(0) =~= Seq::<ServiceTestResultsView>::empty());
        assert(head + Seq::<SpanView>::empty() =~= head);
        while i < report.services.len()
            invariant
                i <= report.services.len(),
                all == report@.services,
                colors == self.colors(),
                spans_view(b@) == head + services_block(all.take(i as int), colors),
            decreases report.services.len() - i,
        {
            assert(all.take(i + 1).drop_last() =~= all.take(i as int));
            let block = self.service_spans(&report.services[i]);
            extend(&mut b, block);
            assert(spans_view(b@) =~= head + services_block(all.take(i + 1), colors));
            i += 1;
        }
        assert(all.take(report.services.len() as int) =~= all);
        let summary = self.summary_spans(report);
        extend(&mut b, summary);
        b
    }
}

impl OutputFormatter for HumanFormatter {
    /// The report for people. Without colours the result is the text of the
    /// layout; with colours each piece is shown with its look, as far as
    /// the terminal library gives it one.
    fn format(&self, report: &TestReport) -> (r: String)
        ensures
            !self.colors() ==> r@ == plain_text(human_layout(report@, false)),
            self.colors() ==> exists|pieces: Seq<Seq<char>>| #[trigger]
                shows(pieces, human_layout(report@, true)) && r@ == joined(pieces),
    {
        let spans = self.layout(report);
        if self.use_colors {
            render(&spans)
        } else {
            render_plain(&spans)
        }
    }
}

/// What the JSON text says where the time of the report cannot be
/// written.
pub const MSG_TIMESTAMP: &'static str = "the time of the report is beyond the range of the calendar";

/// A status where there is one, else `null`.
pub open spec fn optional_status(status: Option<u16>) -> JsonView {
    match status {
        Some(n) => JsonView::Number(decimal(n as nat)),
        None => JsonView::Null,
    }
}

/// One result as JSON: the scenario with its identifier and its name,
/// whether it passed, how long it took, and the error, the details and the
/// status where there are any.
pub open spec fn result_json(r: TestResultView) -> JsonView {
    JsonView::Object(
        seq![
            named("scenario_id"@, JsonView::Text(r.scenario_id)),
            named("scenario_name"@, JsonView::Text(r.scenario_name)),
            named("success"@, JsonView::Bool(r.success)),
            named("duration_ms"@, JsonView::Number(decimal(r.duration_ms as nat))),
            named("error"@, optional_text(r.error)),
            named("details"@, optional_text(r.details)),
            named("http_status"@, optional_status(r.http_status)),
        ],
    )
}

/// The results of one service as JSON.
pub open spec fn service_json(s: ServiceTestResultsView) -> JsonView {
    JsonView::Object(
        seq![
            named("service_name"@, JsonView::Text(s.service_name)),
            named("endpoint"@, JsonView::Text(s.endpoint)),
            named(
                "results"@,
                JsonView::Array(s.results.map_values(|r: TestResultView| result_json(r))),
            ),
            named("total_duration_ms"@, JsonView::Number(decimal(s.total_duration_ms as nat))),
        ],
    )
}

/// The counts of a report as JSON.
pub open spec fn summary_json(s: TestSummary) -> JsonView {
    JsonView::Object(
        seq![
            named("total"@, JsonView::Number(decimal(s.total as nat))),
            named("passed"@, JsonView::Number(decimal(s.passed as nat))),
            named("failed"@, JsonView::Number(decimal(s.failed as nat))),
            named("skipped"@, JsonView::Number(decimal(s.skipped as nat))),
        ],
    )
}

/// A report as JSON, with its time written as `stamp`.
pub open spec fn report_json(report: TestReportView, stamp: Seq<char>) -> JsonView {
    JsonView::Object(
        seq![
            named("timestamp"@, JsonView::Text(stamp)),
            named("summary"@, summary_json(report.summary)),
            named("total_duration_ms"@, JsonView::Number(decimal(report.total_duration_ms as nat))),
            named(
                "services"@,
                JsonView::Array(
                    report.services.map_values(|s: ServiceTestResultsView| service_json(s)),
                ),
            ),
        ],
    )
}

/// The JSON text that stands for a report that cannot be written.
pub open spec fn error_text(message: Seq<char>) -> Seq<char> {
    "{\"error\": \""@ + message + "\"}"@
}

/// The JSON text of a report: the report with its time in RFC 3339,
/// indented or not; where the time or the text cannot be written, the text
/// that says so.
pub open spec fn json_text(pretty: bool, report: TestReportView) -> Seq<char> {
    match rfc3339_of(report.timestamp.secs, report.timestamp.nanos) {
        None => error_text(MSG_TIMESTAMP@),
        Some(stamp) => {
            let written = if pretty {
                pretty_text_of(report_json(report, stamp))
            } else {
                compact_text_of(report_json(report, stamp))
            };
            match written {
                Ok(text) => text,
                Err(e) => error_text(e),
            }
        },
    }
}

/// JSON output formatter.
#[derive(Debug, Clone, Copy)]
pub struct JsonFormatter {
    pretty: bool,
}

fn optional_status_json(status: Option<u16>) -> (r: Json)
    ensures
        r@ == optional_status(status),
{
    match status {
        Some(n) => Json::number(n as u64),
        None => Json::Null,
    }
}

impl JsonFormatter {
    pub fn new(pretty: bool) -> (r: JsonFormatter)
        ensures
            r.is_pretty() == pretty,
    {
        JsonFormatter { pretty }
    }

    /// Whether the text is indented.
    pub closed spec fn is_pretty(self) -> bool {
        self.pretty
    }

    /// Whether the text is indented.
    pub fn pretty(&self) -> (r: bool)
        ensures
            r == self.is_pretty(),
    {
        self.pretty
    }

    /// One result as JSON.
    pub fn result(result: &TestResult) -> (r: Json)
        ensures
            r@ == result_json(result@),
    {
        let mut m: Vec<Member> = Vec::new();
        m.push(member("scenario_id", Json::text(result.scenario_id.as_str())));
        m.push(member("scenario_name", Json::text(result.scenario_name.as_str())));
        m.push(member("success", Json::boolean(result.success)));
        m.push(member("duration_ms", Json::number(result.duration_ms)));
        m.push(member("error", Json::optional_text(&result.error)));
        m.push(member("details", Json::optional_text(&result.details)));
        m.push(member("http_status", optional_status_json(result.http_status)));
        assert(members_view(m@) =~= result_json(result@)->Object_0);
        Json::object(m)
    }

    /// The results of one service as JSON.
    pub fn service(service: &ServiceTestResults) -> (r: Json)
        ensures
            r@ == service_json(service@),
    {
        let ghost all = service@.results;
        let mut results: Vec<Json> = Vec::new();
        let mut i: usize = 0;
        while i < service.results.len()
            invariant
                i <= service.results.len(),
                all == service@.results,
                results.len() == i,
                forall|k: int| 0 <= k < i ==> (#[trigger] results@[k])@ == result_json(all[k]),
            decreases service.results.len() - i,
        {
            assert(all[i as int] == service.results@[i as int]@);
            results.push(JsonFormatter::result(&service.results[i]));
            i += 1;
        }
        assert(items_view(results@) =~= all.map_values(|r: TestResultView| result_json(r)));
        let mut m: Vec<Member> = Vec::new();
        m.push(member("service_name", Json::text(service.service_name.as_str())));
        m.push(member("endpoint", Json::text(service.endpoint.as_str())));
        m.push(member("results", Json::array(results)));
        m.push(member("total_duration_ms", Json::number(service.total_duration_ms)));
        assert(members_view(m@) =~= service_json(service@)->Object_0);
        Json::object(m)
    }

    /// The counts of a report as JSON.
    pub fn summary(summary: &TestSummary) -> (r: Json)
        ensures
            r@ == summary_json(*summary),
    {
        let mut m: Vec<Member> = Vec::new();
        m.push(member("total", Json::number(summary.total as u64)));
        m.push(member("passed", Json::number(summary.passed as u64)));
        m.push(member("failed", Json::number(summary.failed as u64)));
        m.push(member("skipped", Json::number(summary.skipped as u64)));
        assert(members_view(m@) =~= summary_json(*summary)->Object_0);
        Json::object(m)
    }

    /// A report as JSON, with its time written as `stamp`.
    pub fn document(report: &TestReport, stamp: &str) -> (r: Json)
        ensures
            r@ == report_json(report@, stamp@),
    {
        let ghost all = report@.services;
        let mut services: Vec<Json> = Vec::new();
        let mut i: usize = 0;
        while i < report.services.len()
            invariant
                i <= report.services.len(),
                all == report@.services,
                services.len() == i,
                forall|k: int| 0 <= k < i ==> (#[trigger] services@[k])@ == service_json(all[k]),
            decreases report.services.len() - i,
        {
            assert(all[i as int] == report.services@[i as int]@);
            services.push(JsonFormatter::service(&report.services[i]));
            i += 1;
        }
        assert(items_view(services@) =~= all.map_values(
            |s: ServiceTestResultsView| service_json(s),
        ));
        let mut m: Vec<Member> = Vec::new();
        m.push(member("timestamp", Json::text(stamp)));
        m.push(member("summary", JsonFormatter::summary(&report.summary)));
        m.push(member("total_duration_ms", Json::number(report.total_duration_ms)));
        m.push(member("services", Json::array(services)));
        assert(members_view(m@) =~= report_json(report@, stamp@)->Object_0);
        Json::object(m)
    }

    /// The JSON text that stands for a report that cannot be written.
    pub fn error_text(message: &str) -> (r: String)
        ensures
            r@ == error_text(message@),
    {
        let mut r = "{\"error\": \"".to_owned();
        r.append(message);
        r.append("\"}");
        r
    }
}

impl OutputFormatter for JsonFormatter {
    /// The report as JSON text, its members in the order of the report:
    /// time, counts, duration, services.
    fn format(&self, report: &TestReport) -> (r: String)
        ensures
            r@ == json_text(self.is_pretty(), report@),
    {
        let stamp = match to_rfc3339(&report.timestamp) {
            Some(stamp) => stamp,
            None => {
                return JsonFormatter::error_text(MSG_TIMESTAMP);
            },
        };
        let document = JsonFormatter::document(report, stamp.as_str());
        let written = if self.pretty {
            document.pretty_text()
        } else {
            document.compact_text()
        };
        match written {
            Ok(text) => text,
            Err(e) => JsonFormatter::error_text(e.as_str()),
        }
    }
}

/// What stands for one character in XML text and attributes.
pub open spec fn escaped_char(c: char) -> Seq<char> {
    if c == '&' {
        "&amp;"@
    } else if c == '<' {
        "&lt;"@
    } else if c == '>' {
        "&gt;"@
    } else if c == '"' {
        "&quot;"@
    } else if c == '\'' {
        "&apos;"@
    } else {
        seq![c]
    }
}

/// A text with the five special characters of XML replaced.
pub open spec fn escaped(s: Seq<char>) -> Seq<char>
    decreases s.len(),
{
    if s.len() == 0 {
        Seq::empty()
    } else {
        escaped(s.drop_last()) + escaped_char(s.last())
    }
}

/// The element of one result.
pub open spec fn junit_case(service_name: Seq<char>, r: TestResultView) -> Seq<char> {
    let open = "    <testcase name=\""@ + escaped(r.scenario_name) + "\" classname=\""@ + escaped(
        service_name,
    ) + "\" time=\""@ + seconds_text(r.duration_ms) + "\""@;
    if r.success {
        open + " />\n"@
    } else if r.is_skipped() {
        open + ">\n"@ + "      <skipped message=\""@ + escaped(r.error->0) + "\" />\n"@
            + "    </testcase>\n"@
    } else {
        let message = match r.error {
            Some(e) => e,
            None => "Test failed"@,
        };
        let failure = open + ">\n"@ + "      <failure message=\""@ + escaped(message)
            + "\" type=\"AssertionError\">\n"@;
        match r.details {
            Some(d) => failure + "        "@ + escaped(d) + "\n"@ + "      </failure>\n"@
                + "    </testcase>\n"@,
            None => failure + "      </failure>\n"@ + "    </testcase>\n"@,
        }
    }
}

/// The elements of the results of a service, in order.
pub open spec fn junit_cases(service_name: Seq<char>, results: Seq<TestResultView>) -> Seq<char>
    decreases results.len(),
{
    if results.len() == 0 {
        Seq::empty()
    } else {
        junit_cases(service_name, results.drop_last()) + junit_case(service_name, results.last())
    }
}

/// The element of one service. Its failures count every result that did
/// not pass, skipped ones included.
pub open spec fn junit_suite(s: ServiceTestResultsView) -> Seq<char> {
    "  <testsuite name=\""@ + escaped(s.service_name) + "\" tests=\""@ + decimal(s.results.len())
        + "\" failures=\""@ + decimal(count_not_passed(s.results)) + "\" errors=\"0\" time=\""@
        + seconds_text(s.total_duration_ms) + "\">\n"@ + junit_cases(s.service_name, s.results)
        + "  </testsuite>\n"@
}

/// The elements of the services, in order.
pub open spec fn junit_suites(services: Seq<ServiceTestResultsView>) -> Seq<char>
    decreases services.len(),
{
    if services.len() == 0 {
        Seq::empty()
    } else {
        junit_suites(services.drop_last()) + junit_suite(services.last())
    }
}

/// The report as JUnit XML.
pub open spec fn junit_text(report: TestReportView) -> Seq<char> {
    XML_HEADER@ + "<testsuites tests=\""@ + decimal(report.summary.total as nat)
        + "\" failures=\""@ + decimal(report.summary.failed as nat) + "\" errors=\"0\" time=\""@
        + seconds_text(report.total_duration_ms) + "\">\n"@ + junit_suites(report.services)
        + "</testsuites>\n"@
}

/// JUnit XML output formatter for CI/CD integration.
#[derive(Debug, Clone, Copy)]
pub struct JunitFormatter;

impl JunitFormatter {
    pub fn new() -> (r: JunitFormatter) {
        JunitFormatter
    }

    /// Replaces the five special characters of XML: `&`, `<`, `>`, `"` and
    /// `'`.
    pub fn escape_xml(s: &str) -> (r: String)
        ensures
            r@ == escaped(s@),
    {
        let v = chars_of(s);
        let mut r = String::new();
        let mut i: usize = 0;
        assert(v@.take(0) =~= Seq::<char>::empty());
        while i < v.len()
            invariant
                i <= v.len(),
                v@ == s@,
                r@ == escaped(v@.take(i as int)),
            decreases v.len() - i,
        {
            assert(v@.take(i + 1).drop_last() =~= v@.take(i as int));
            let c = v[i];
            if c == '&' {
                r.append("&amp;");
            } else if c == '<' {
                r.append("&lt;");
            } else if c == '>' {
                r.append("&gt;");
            } else if c == '"' {
                r.append("&quot;");
            } else if c == '\'' {
                r.append("&apos;");
            } else {
                r.push(c);
                assert(r@ =~= escaped(v@.take(i as int)) + seq![c]);
            }
            i += 1;
        }
        assert(v@.take(v.len() as int) =~= v@);
        r
    }

    fn case_text(service_name: &str, result: &TestResult) -> (r: String)
        ensures
            r@ == junit_case(service_name@, result@),
    {
        let mut r = "    <testcase name=\"".to_owned();
        r.append(JunitFormatter::escape_xml(result.scenario_name.as_str()).as_str());
        r.append("\" classname=\"");
        r.append(JunitFormatter::escape_xml(service_name).as_str());
        r.append("\" time=\"");
        r.append(millis_as_seconds(result.duration_ms).as_str());
        r.append("\"");
        if result.success {
            r.append(" />\n");
            return r;
        }
        r.append(">\n");
        if result.is_skipped() {
            r.append("      <skipped message=\"");
            let message = match &result.error {
                Some(e) => JunitFormatter::escape_xml(e.as_str()),
                None => JunitFormatter::escape_xml(""),
            };
            r.append(message.as_str());
            r.append("\" />\n");
        } else {
            r.append("      <failure message=\"");
            let message = match &result.error {
                Some(e) => JunitFormatter::escape_xml(e.as_str()),
                None => JunitFormatter::escape_xml("Test failed"),
            };
            r.append(message.as_str());
            r.append("\" type=\"AssertionError\">\n");
            match &result.details {
                Some(d) => {
                    r.append("        ");
                    r.append(JunitFormatter::escape_xml(d.as_str()).as_str());
                    r.append("\n");
                },
                None => {},
            }
            r.append("      </failure>\n");
        }
        r.append("    </testcase>\n");
        r
    }

    fn suite_text(service: &ServiceTestResults) -> (r: String)
        ensures
            r@ == junit_suite(service@),
    {
        let ghost all = service@.results;
        let mut r = "  <testsuite name=\"".to_owned();
        r.append(JunitFormatter::escape_xml(service.service_name.as_str()).as_str());
        r.append("\" tests=\"");
        r.append(u64_to_decimal(service.results.len() as u64).as_str());
        r.append("\" failures=\"");
        r.append(u64_to_decimal(service.failed() as u64).as_str());
        r.append("\" errors=\"0\" time=\"");
        r.append(millis_as_seconds(service.total_duration_ms).as_str());
        r.append("\">\n");
        let ghost head = r@;
        let mut i: usize = 0;
        assert(all.take(0) =~= Seq::<TestResultView>::empty());
        assert(head + Seq::<char>::empty() =~= head);
        while i < service.results.len()
            invariant
                i <= service.results.len(),
                all == service@.results,
                r@ == head + junit_cases(service@.service_name, all.take(i as int)),
            decreases service.results.len() - i,
        {
            assert(all.take(i + 1).drop_last() =~= all.take(i as int));
            let case = JunitFormatter::case_text(
                service.service_name.as_str(),
                &service.results[i],
            );
            r.append(case.as_str());
            assert(r@ =~= head + junit_cases(service@.service_name, all.take(i + 1)));
            i += 1;
        }
        assert(all.take(service.results.len() as int) =~= all);
        r.append("  </testsuite>\n");
        r
    }
}

impl Default for JunitFormatter {
    fn default() -> (r: JunitFormatter) {
        JunitFormatter::new()
    }
}

impl OutputFormatter for JunitFormatter {
    /// The report as JUnit XML: one suite for each service, one case for
    /// each result. Times are seconds with three decimals.
    fn format(&self, report: &TestReport) -> (r: String)
        ensures
            r@ == junit_text(report@),
    {
        let ghost all = report@.services;
        let mut r = XML_HEADER.to_owned();
        r.append("<testsuites tests=\"");
        r.append(u64_to_decimal(report.summary.total as u64).as_str());
        r.append("\" failures=\"");
        r.append(u64_to_decimal(report.summary.failed as u64).as_str());
        r.append("\" errors=\"0\" time=\"");
        r.append(millis_as_seconds(report.total_duration_ms).as_str());
        r.append("\">\n");
        let ghost head = r@;
        let mut i: usize = 0;
        assert(all.take(0) =~= Seq::<ServiceTestResultsView>::empty());
        assert(head + Seq::<char>::empty() =~= head);
        while i < report.services.len()
            invariant
                i <= report.services.len(),
                all == report@.services,
                r@ == head + junit_suites(all.take(i as int)),
            decreases report.services.len() - i,
        {
            assert(all.take(i + 1).drop_last() =~= all.take(i as int));
            let suite = JunitFormatter::suite_text(&report.services[i]);
            r.append(suite.as_str());
            assert(r@ =~= head + junit_suites(all.take(i + 1)));
            i += 1;
        }
        assert(all.take(report.services.len() as int) =~= all);
        r.append("</testsuites>\n");
        r
    }
}

/// The formatter of one of the output formats.
#[derive(Debug, Clone, Copy)]
pub enum Formatter {
    Human(HumanFormatter),
    Json(JsonFormatter),
    Junit(JunitFormatter),
}

/// Get formatter based on output format: the one for people with or without
/// colours, indented JSON, or JUnit XML.
pub fn get_formatter(format: OutputFormat, use_colors: bool) -> (r: Formatter)
    ensures
        match format {
            OutputFormat::Human => r matches Formatter::Human(f) && f.colors() == use_colors,
            OutputFormat::Json => r matches Formatter::Json(f) && f.is_pretty(),
            OutputFormat::Junit => r is Junit,
        },
{
    match format {
        OutputFormat::Human => Formatter::Human(HumanFormatter::new(use_colors)),
        OutputFormat::Json => Formatter::Json(JsonFormatter::new(true)),
        OutputFormat::Junit => Formatter::Junit(JunitFormatter::new()),
    }
}

} // verus!
