//! Network diagnostics: which hosts are probed, what a probe came to, and
//! how the findings are shown.

use crate::config::Cloud;
use crate::error::{AppError, AppErrorView, ExitCode};
use crate::json::{
    items_view, member, members_view, named, optional_text, pretty_text_of, Json, JsonView, Member,
};
use crate::paint::{
    extend, joined, plain, plain_text, push_span, push_text, render, render_plain, shade, shade_of,
    shows, spans_view, tinted, Span, SpanView, Tint,
};
use crate::text::{decimal, opt_view, strings_view, u64_to_decimal};
use vstd::prelude::*;
use vstd::string::*;

verus! {

/// Seconds after which a probe is given up.
pub const PROBE_TIMEOUT_SECS: u64 = 10;

/// The region that is probed where none is named.
pub const DEFAULT_REGION: &'static str = "eastus";

/// DNS resolution result.
#[derive(Debug)]
pub struct DnsResult {
    pub hostname: String,
    pub resolved: bool,
    pub addresses: Vec<String>,
    pub duration_ms: u64,
    pub error: Option<String>,
}

pub ghost struct DnsResultView {
    pub hostname: Seq<char>,
    pub resolved: bool,
    pub addresses: Seq<Seq<char>>,
    pub duration_ms: u64,
    pub error: Option<Seq<char>>,
}

impl View for DnsResult {
    type V = DnsResultView;

    open spec fn view(&self) -> DnsResultView {
        DnsResultView {
            hostname: self.hostname@,
            resolved: self.resolved,
            addresses: strings_view(self.addresses@),
            duration_ms: self.duration_ms,
            error: opt_view(self.error),
        }
    }
}

/// TLS handshake result.
#[derive(Debug)]
pub struct TlsResult {
    pub endpoint: String,
    pub success: bool,
    pub duration_ms: u64,
    pub error: Option<String>,
}

pub ghost struct TlsResultView {
    pub endpoint: Seq<char>,
    pub success: bool,
    pub duration_ms: u64,
    pub error: Option<Seq<char>>,
}

impl View for TlsResult {
    type V = TlsResultView;

    open spec fn view(&self) -> TlsResultView {
        TlsResultView {
            endpoint: self.endpoint@,
            success: self.success,
            duration_ms: self.duration_ms,
            error: opt_view(self.error),
        }
    }
}

/// Latency measurement result.
#[derive(Debug)]
pub struct LatencyResult {
    pub endpoint: String,
    pub latency_ms: u64,
    pub success: bool,
    pub error: Option<String>,
}

pub ghost struct LatencyResultView {
    pub endpoint: Seq<char>,
    pub latency_ms: u64,
    pub success: bool,
    pub error: Option<Seq<char>>,
}

impl View for LatencyResult {
    type V = LatencyResultView;

    open spec fn view(&self) -> LatencyResultView {
        LatencyResultView {
            endpoint: self.endpoint@,
            latency_ms: self.latency_ms,
            success: self.success,
            error: opt_view(self.error),
        }
    }
}

/// Complete network diagnostics report.
#[derive(Debug)]
pub struct NetworkDiagnostics {
    pub dns: Vec<DnsResult>,
    pub tls: Vec<TlsResult>,
    pub latency: Vec<LatencyResult>,
}

pub ghost struct NetworkDiagnosticsView {
    pub dns: Seq<DnsResultView>,
    pub tls: Seq<TlsResultView>,
    pub latency: Seq<LatencyResultView>,
}

impl View for NetworkDiagnostics {
    type V = NetworkDiagnosticsView;

    open spec fn view(&self) -> NetworkDiagnosticsView {
        NetworkDiagnosticsView {
            dns: self.dns@.map_values(|r: DnsResult| r@),
            tls: self.tls@.map_values(|r: TlsResult| r@),
            latency: self.latency@.map_values(|r: LatencyResult| r@),
        }
    }
}

/// The hosts of the services in a region of a cloud: the regional host of
/// the cognitive services, the host of the translator, and the regional
/// host of the custom domains.
pub open spec fn region_endpoints(region: Seq<char>, cloud: Cloud) -> Seq<Seq<char>> {
    match cloud {
        Cloud::Global => seq![
            region + ".api.cognitive.microsoft.com"@,
            "api.cognitive.microsofttranslator.com"@,
            region + ".cognitiveservices.azure.com"@,
        ],
        Cloud::China => seq![
            region + ".api.cognitive.azure.cn"@,
            "api.translator.azure.cn"@,
            region + ".cognitiveservices.azure.cn"@,
        ],
    }
}

/// The hosts that are probed: the custom endpoint alone where one is given,
/// else the hosts of the region.
pub open spec fn targets(
    region: Seq<char>,
    cloud: Cloud,
    custom_endpoint: Option<Seq<char>>,
) -> Seq<Seq<char>> {
    match custom_endpoint {
        Some(e) => seq![e],
        None => region_endpoints(region, cloud),
    }
}

fn host(region: &str, suffix: &str) -> (r: String)
    ensures
        r@ == region@ + suffix@,
{
    let mut r = region.to_owned();
    r.append(suffix);
    r
}

/// Get common Azure AI Services endpoints for a region.
pub fn get_endpoints_for_region(region: &str, cloud: Cloud) -> (r: Vec<String>)
    ensures
        strings_view(r@) == region_endpoints(region@, cloud),
{
    let mut r: Vec<String> = Vec::new();
    match cloud {
        Cloud::Global => {
            r.push(host(region, ".api.cognitive.microsoft.com"));
            r.push("api.cognitive.microsofttranslator.com".to_owned());
            r.push(host(region, ".cognitiveservices.azure.com"));
        },
        Cloud::China => {
            r.push(host(region, ".api.cognitive.azure.cn"));
            r.push("api.translator.azure.cn".to_owned());
            r.push(host(region, ".cognitiveservices.azure.cn"));
        },
    }
    assert(strings_view(r@) =~= region_endpoints(region@, cloud));
    r
}

/// The hosts that a run of the diagnostics probes.
pub fn run_diagnostics(region: &str, cloud: Cloud, custom_endpoint: Option<&str>) -> (r: Vec<
    String,
>)
    ensures
        strings_view(r@) == targets(
            region@,
            cloud,
            match custom_endpoint {
                Some(e) => Some(e@),
                None => None,
            },
        ),
{
    match custom_endpoint {
        Some(endpoint) => {
            let mut r: Vec<String> = Vec::new();
            r.push(endpoint.to_owned());
            assert(strings_view(r@) =~= seq![endpoint@]);
            r
        },
        None => get_endpoints_for_region(region, cloud),
    }
}

/// The checks that are run: those that were asked for, or all three where
/// none was.
pub fn selected_checks(dns: bool, tls: bool, latency: bool) -> (r: (bool, bool, bool))
    ensures
        r == if !dns && !tls && !latency {
            (true, true, true)
        } else {
            (dns, tls, latency)
        },
{
    if !dns && !tls && !latency {
        (true, true, true)
    } else {
        (dns, tls, latency)
    }
}

/// The address that is asked for when a host is looked up.
pub fn lookup_target(hostname: &str) -> (r: String)
    ensures
        r@ == hostname@ + ":443"@,
{
    host(hostname, ":443")
}

/// The address that is requested when a host is probed.
pub fn probe_url(endpoint: &str) -> (r: String)
    ensures
        r@ == "https://"@ + endpoint@,
{
    let mut r = "https://".to_owned();
    r.append(endpoint);
    r
}

/// What a request to a host came to.
#[derive(Debug)]
pub enum Probe {
    /// No client could be made; the reason.
    ClientFailed(String),
    /// A response arrived, whatever its status.
    Reached,
    /// No connection could be made; the transport's message.
    ConnectFailed(String),
    /// The time ran out; the transport's message.
    TimedOut(String),
    /// The request failed in another way; the transport's message.
    Failed(String),
}

pub ghost enum ProbeView {
    ClientFailed(Seq<char>),
    Reached,
    ConnectFailed(Seq<char>),
    TimedOut(Seq<char>),
    Failed(Seq<char>),
}

impl View for Probe {
    type V = ProbeView;

    open spec fn view(&self) -> ProbeView {
        match self {
            Probe::ClientFailed(m) => ProbeView::ClientFailed(m@),
            Probe::Reached => ProbeView::Reached,
            Probe::ConnectFailed(m) => ProbeView::ConnectFailed(m@),
            Probe::TimedOut(m) => ProbeView::TimedOut(m@),
            Probe::Failed(m) => ProbeView::Failed(m@),
        }
    }
}

impl ProbeView {
    /// The error that a handshake check reports.
    pub open spec fn tls_error(self) -> Option<Seq<char>> {
        match self {
            ProbeView::ClientFailed(m) => Some("Failed to create client: "@ + m),
            ProbeView::Reached => None,
            ProbeView::ConnectFailed(m) => Some("Connection failed: "@ + m),
            ProbeView::TimedOut(_) => Some("Connection timed out"@),
            ProbeView::Failed(m) => Some(m),
        }
    }

    /// The error that a latency measurement reports.
    pub open spec fn latency_error(self) -> Option<Seq<char>> {
        match self {
            ProbeView::ClientFailed(m) => Some("Failed to create client: "@ + m),
            ProbeView::Reached => None,
            ProbeView::ConnectFailed(m) => Some(m),
            ProbeView::TimedOut(m) => Some(m),
            ProbeView::Failed(m) => Some(m),
        }
    }
}

/// The result of a lookup: the addresses where it succeeded, and resolved
/// only where there is at least one; the error where it failed.
pub fn check_dns(hostname: &str, lookup: Result<Vec<String>, String>, duration_ms: u64) -> (r:
    DnsResult)
    ensures
        r@ == (match lookup {
            Ok(addresses) => DnsResultView {
                hostname: hostname@,
                resolved: addresses.len() > 0,
                addresses: strings_view(addresses@),
                duration_ms,
                error: None,
            },
            Err(e) => DnsResultView {
                hostname: hostname@,
                resolved: false,
                addresses: Seq::empty(),
                duration_ms,
                error: Some(e@),
            },
        }),
{
    match lookup {
        Ok(addresses) => DnsResult {
            hostname: hostname.to_owned(),
            resolved: addresses.len() > 0,
            addresses,
            duration_ms,
            error: None,
        },
        Err(e) => {
            let r = DnsResult {
                hostname: hostname.to_owned(),
                resolved: false,
                addresses: Vec::new(),
                duration_ms,
                error: Some(e),
            };
            assert(strings_view(r.addresses@) =~= Seq::<Seq<char>>::empty());
            r
        },
    }
}

/// The result of a handshake check: any response is a success.
pub fn check_tls(endpoint: &str, probe: Probe, duration_ms: u64) -> (r: TlsResult)
    ensures
        r@ == (TlsResultView {
            endpoint: endpoint@,
            success: probe@ is Reached,
            duration_ms,
            error: probe@.tls_error(),
        }),
{
    let (success, error) = match probe {
        Probe::ClientFailed(m) => {
            let mut t = "Failed to create client: ".to_owned();
            t.append(m.as_str());
            (false, Some(t))
        },
        Probe::Reached => (true, None),
        Probe::ConnectFailed(m) => {
            let mut t = "Connection failed: ".to_owned();
            t.append(m.as_str());
            (false, Some(t))
        },
        Probe::TimedOut(_) => (false, Some("Connection timed out".to_owned())),
        Probe::Failed(m) => (false, Some(m)),
    };
    TlsResult { endpoint: endpoint.to_owned(), success, duration_ms, error }
}

/// The result of a latency measurement. Where no client could be made the
/// latency is zero.
pub fn measure_latency(endpoint: &str, probe: Probe, elapsed_ms: u64) -> (r: LatencyResult)
    ensures
        r@ == (LatencyResultView {
            endpoint: endpoint@,
            latency_ms: if probe@ is ClientFailed {
                0
            } else {
                elapsed_ms
            },
            success: probe@ is Reached,
            error: probe@.latency_error(),
        }),
{
    let (latency_ms, success, error) = match probe {
        Probe::ClientFailed(m) => {
            let mut t = "Failed to create client: ".to_owned();
            t.append(m.as_str());
            (0, false, Some(t))
        },
        Probe::Reached => (elapsed_ms, true, None),
        Probe::ConnectFailed(m) => (elapsed_ms, false, Some(m)),
        Probe::TimedOut(m) => (elapsed_ms, false, Some(m)),
        Probe::Failed(m) => (elapsed_ms, false, Some(m)),
    };
    LatencyResult { endpoint: endpoint.to_owned(), latency_ms, success, error }
}

impl NetworkDiagnosticsView {
    /// Whether some check failed.
    pub open spec fn has_failure(self) -> bool {
        ||| exists|i: int| 0 <= i < self.dns.len() && !(#[trigger] self.dns[i]).resolved
        ||| exists|i: int| 0 <= i < self.tls.len() && !(#[trigger] self.tls[i]).success
        ||| exists|i: int| 0 <= i < self.latency.len() && !(#[trigger] self.latency[i]).success
    }
}

impl NetworkDiagnostics {
    /// The exit status for the findings: network failure where some check
    /// failed, else success.
    pub fn exit_code(&self) -> (r: ExitCode)
        ensures
            r == if self@.has_failure() {
                ExitCode::NetworkFailure
            } else {
                ExitCode::Success
            },
    {
        let mut i: usize = 0;
        while i < self.dns.len()
            invariant
                i <= self.dns.len(),
                forall|k: int| 0 <= k < i ==> (#[trigger] self@.dns[k]).resolved,
            decreases self.dns.len() - i,
        {
            if !self.dns[i].resolved {
                assert(!self@.dns[i as int].resolved);
                return ExitCode::NetworkFailure;
            }
            i += 1;
        }
        let mut j: usize = 0;
        while j < self.tls.len()
            invariant
                j <= self.tls.len(),
                forall|k: int| 0 <= k < j ==> (#[trigger] self@.tls[k]).success,
            decreases self.tls.len() - j,
        {
            if !self.tls[j].success {
                assert(!self@.tls[j as int].success);
                return ExitCode::NetworkFailure;
            }
            j += 1;
        }
        let mut k: usize = 0;
        while k < self.latency.len()
            invariant
                k <= self.latency.len(),
                forall|n: int| 0 <= n < k ==> (#[trigger] self@.latency[n]).success,
            decreases self.latency.len() - k,
        {
            if !self.latency[k].success {
                assert(!self@.latency[k as int].success);
                return ExitCode::NetworkFailure;
            }
            k += 1;
        }
        ExitCode::Success
    }
}

/// The mark of a check.
pub open spec fn status_span(ok: bool, colors: bool) -> SpanView {
    if ok {
        if colors {
            tinted(Tint::Green, "\u{2713}"@)
        } else {
            plain("[OK]"@)
        }
    } else {
        if colors {
            tinted(Tint::Red, "\u{2717}"@)
        } else {
            plain("[FAIL]"@)
        }
    }
}

/// The line with the error of a check, where it has one.
pub open spec fn error_block(error: Option<Seq<char>>, colors: bool) -> Seq<SpanView> {
    match error {
        Some(e) => if colors {
            seq![plain("    "@), tinted(Tint::Red, e), plain("\n"@)]
        } else {
            seq![plain("    Error: "@), plain(e), plain("\n"@)]
        },
        None => Seq::empty(),
    }
}

/// The lines of the addresses of a host, in order.
pub open spec fn addresses_block(addresses: Seq<Seq<char>>, colors: bool) -> Seq<SpanView>
    decreases addresses.len(),
{
    if addresses.len() == 0 {
        Seq::empty()
    } else {
        addresses_block(addresses.drop_last(), colors) + seq![
            plain("    "@),
            tinted(shade_of(colors, Tint::Dim), addresses.last()),
            plain("\n"@),
        ]
    }
}

/// The line of a check that took a time: mark, host and duration.
pub open spec fn timed_line(ok: bool, host: Seq<char>, ms: u64, colors: bool) -> Seq<SpanView> {
    seq![
        plain("  "@),
        status_span(ok, colors),
        plain(" "@),
        plain(host),
        plain(" ("@),
        plain(decimal(ms as nat)),
        plain("ms)\n"@),
    ]
}

/// The lines of one lookup: the host, then its addresses where it was
/// resolved, else its error.
pub open spec fn dns_block(r: DnsResultView, colors: bool) -> Seq<SpanView> {
    timed_line(r.resolved, r.hostname, r.duration_ms, colors) + if r.resolved {
        addresses_block(r.addresses, colors)
    } else {
        error_block(r.error, colors)
    }
}

/// The lines of one handshake check.
pub open spec fn tls_block(r: TlsResultView, colors: bool) -> Seq<SpanView> {
    timed_line(r.success, r.endpoint, r.duration_ms, colors) + if r.success {
        Seq::empty()
    } else {
        error_block(r.error, colors)
    }
}

/// The lines of one latency measurement.
pub open spec fn latency_block(r: LatencyResultView, colors: bool) -> Seq<SpanView> {
    seq![
        plain("  "@),
        status_span(r.success, colors),
        plain(" "@),
        plain(r.endpoint),
        plain(" - "@),
        plain(decimal(r.latency_ms as nat)),
        plain("ms\n"@),
    ] + if r.success {
        Seq::empty()
    } else {
        error_block(r.error, colors)
    }
}

/// The lines of the lookups, in order.
pub open spec fn dns_blocks(results: Seq<DnsResultView>, colors: bool) -> Seq<SpanView>
    decreases results.len(),
{
    if results.len() == 0 {
        Seq::empty()
    } else {
        dns_blocks(results.drop_last(), colors) + dns_block(results.last(), colors)
    }
}

/// The lines of the handshake checks, in order.
pub open spec fn tls_blocks(results: Seq<TlsResultView>, colors: bool) -> Seq<SpanView>
    decreases results.len(),
{
    if results.len() == 0 {
        Seq::empty()
    } else {
        tls_blocks(results.drop_last(), colors) + tls_block(results.last(), colors)
    }
}

/// The lines of the latency measurements, in order.
pub open spec fn latency_blocks(results: Seq<LatencyResultView>, colors: bool) -> Seq<SpanView>
    decreases results.len(),
{
    if results.len() == 0 {
        Seq::empty()
    } else {
        latency_blocks(results.drop_last(), colors) + latency_block(results.last(), colors)
    }
}

/// The section of the lookups; nothing where there are none.
pub open spec fn dns_section(results: Seq<DnsResultView>, colors: bool) -> Seq<SpanView> {
    if results.len() == 0 {
        Seq::empty()
    } else {
        seq![plain("DNS Resolution:\n"@)] + dns_blocks(results, colors) + seq![plain("\n"@)]
    }
}

/// The section of the handshake checks; nothing where there are none.
pub open spec fn tls_section(results: Seq<TlsResultView>, colors: bool) -> Seq<SpanView> {
    if results.len() == 0 {
        Seq::empty()
    } else {
        seq![plain("TLS Handshake:\n"@)] + tls_blocks(results, colors) + seq![plain("\n"@)]
    }
}

/// The section of the latency measurements; nothing where there are none.
pub open spec fn latency_section(results: Seq<LatencyResultView>, colors: bool) -> Seq<SpanView> {
    if results.len() == 0 {
        Seq::empty()
    } else {
        seq![plain("Latency:\n"@)] + latency_blocks(results, colors)
    }
}

/// The findings as pieces of text: a title and the three sections.
pub open spec fn diagnostics_layout(d: NetworkDiagnosticsView, colors: bool) -> Seq<SpanView> {
    seq![plain("\nNetwork Diagnostics\n"@), plain("==================\n\n"@)] + dns_section(
        d.dns,
        colors,
    ) + tls_section(d.tls, colors) + latency_section(d.latency, colors)
}

fn push_status(out: &mut Vec<Span>, ok: bool, colors: bool)
    ensures
        spans_view(final(out)@) == spans_view(old(out)@).push(status_span(ok, colors)),
{
    if ok {
        if colors {
            push_span(out, Tint::Green, "\u{2713}");
        } else {
            push_text(out, "[OK]");
        }
    } else {
        if colors {
            push_span(out, Tint::Red, "\u{2717}");
        } else {
            push_text(out, "[FAIL]");
        }
    }
}

fn error_spans(error: &Option<String>, colors: bool) -> (r: Vec<Span>)
    ensures
        spans_view(r@) == error_block(opt_view(*error), colors),
{
    let mut b: Vec<Span> = Vec::new();
    match error {
        Some(e) => {
            if colors {
                push_text(&mut b, "    ");
                push_span(&mut b, Tint::Red, e.as_str());
                push_text(&mut b, "\n");
            } else {
                push_text(&mut b, "    Error: ");
                push_text(&mut b, e.as_str());
                push_text(&mut b, "\n");
            }
        },
        None => {},
    }
    assert(spans_view(b@) =~= error_block(opt_view(*error), colors));
    b
}

fn timed_spans(ok: bool, host: &str, ms: u64, colors: bool) -> (r: Vec<Span>)
    ensures
        spans_view(r@) == timed_line(ok, host@, ms, colors),
{
    let mut b: Vec<Span> = Vec::new();
    push_text(&mut b, "  ");
    push_status(&mut b, ok, colors);
    push_text(&mut b, " ");
    push_text(&mut b, host);
    push_text(&mut b, " (");
    push_text(&mut b, u64_to_decimal(ms).as_str());
    push_text(&mut b, "ms)\n");
    assert(spans_view(b@) =~= timed_line(ok, host@, ms, colors));
    b
}

fn dns_spans(result: &DnsResult, colors: bool) -> (r: Vec<Span>)
    ensures
        spans_view(r@) == dns_block(result@, colors),
{
    let mut b = timed_spans(result.resolved, result.hostname.as_str(), result.duration_ms, colors);
    let ghost head = spans_view(b@);
    if result.resolved {
        let ghost all = result@.addresses;
        let mut i: usize = 0;
        assert(all.take(0) =~= Seq::<Seq<char>>::empty());
        assert(head + Seq::<SpanView>::empty() =~= head);
        while i < result.addresses.len()
            invariant
                i <= result.addresses.len(),
                all == result@.addresses,
                spans_view(b@) == head + addresses_block(all.take(i as int), colors),
            decreases result.addresses.len() - i,
        {
            assert(all.take(i + 1).drop_last() =~= all.take(i as int));
            let ghost before = spans_view(b@);
            push_text(&mut b, "    ");
            push_span(&mut b, shade(colors, Tint::Dim), result.addresses[i].as_str());
            push_text(&mut b, "\n");
            assert(spans_view(b@) =~= before + seq![
                plain("    "@),
                tinted(shade_of(colors, Tint::Dim), all[i as int]),
                plain("\n"@),
            ]);
            assert(spans_view(b@) =~= head + addresses_block(all.take(i + 1), colors));
            i += 1;
        }
        assert(all.take(result.addresses.len() as int) =~= all);
    } else {
        extend(&mut b, error_spans(&result.error, colors));
    }
    b
}

fn tls_spans(result: &TlsResult, colors: bool) -> (r: Vec<Span>)
    ensures
        spans_view(r@) == tls_block(result@, colors),
{
    let mut b = timed_spans(result.success, result.endpoint.as_str(), result.duration_ms, colors);
    if !result.success {
        extend(&mut b, error_spans(&result.error, colors));
    } else {
        assert(spans_view(b@) + Seq::<SpanView>::empty() =~= spans_view(b@));
    }
    b
}

fn latency_spans(result: &LatencyResult, colors: bool) -> (r: Vec<Span>)
    ensures
        spans_view(r@) == latency_block(result@, colors),
{
    let mut b: Vec<Span> = Vec::new();
    push_text(&mut b, "  ");
    push_status(&mut b, result.success, colors);
    push_text(&mut b, " ");
    push_text(&mut b, result.endpoint.as_str());
    push_text(&mut b, " - ");
    push_text(&mut b, u64_to_decimal(result.latency_ms).as_str());
    push_text(&mut b, "ms\n");
    let ghost head = spans_view(b@);
    assert(head =~= seq![
        plain("  "@),
        status_span(result.success, colors),
        plain(" "@),
        plain(result@.endpoint),
        plain(" - "@),
        plain(decimal(result.latency_ms as nat)),
        plain("ms\n"@),
    ]);
    if !result.success {
        extend(&mut b, error_spans(&result.error, colors));
    } else {
        assert(head + Seq::<SpanView>::empty() =~= head);
    }
    b
}

fn dns_section_spans(results: &Vec<DnsResult>, colors: bool) -> (r: Vec<Span>)
    ensures
        spans_view(r@) == dns_section(results@.map_values(|r: DnsResult| r@), colors),
{
    let ghost all = results@.map_values(|r: DnsResult| r@);
    let mut b: Vec<Span> = Vec::new();
    if results.len() == 0 {
        assert(spans_view(b@) =~= Seq::<SpanView>::empty());
        return b;
    }
    push_text(&mut b, "DNS Resolution:\n");
    let ghost head = spans_view(b@);
    assert(head =~= seq![plain("DNS Resolution:\n"@)]);
    let mut i: usize = 0;
    assert(all.take(0) =~= Seq::<DnsResultView>::empty());
    assert(head + Seq::<SpanView>::empty() =~= head);
    while i < results.len()
        invariant
            i <= results.len(),
            all == results@.map_values(|r: DnsResult| r@),
            spans_view(b@) == head + dns_blocks(all.take(i as int), colors),
        decreases results.len() - i,
    {
        assert(all.take(i + 1).drop_last() =~= all.take(i as int));
        extend(&mut b, dns_spans(&results[i], colors));
        assert(spans_view(b@) =~= head + dns_blocks(all.take(i + 1), colors));
        i += 1;
    }
    assert(all.take(results.len() as int) =~= all);
    push_text(&mut b, "\n");
    assert(spans_view(b@) =~= dns_section(all, colors));
    b
}

fn tls_section_spans(results: &Vec<TlsResult>, colors: bool) -> (r: Vec<Span>)
    ensures
        spans_view(r@) == tls_section(results@.map_values(|r: TlsResult| r@), colors),
{
    let ghost all = results@.map_values(|r: TlsResult| r@);
    let mut b: Vec<Span> = Vec::new();
    if results.len() == 0 {
        assert(spans_view(b@) =~= Seq::<SpanView>::empty());
        return b;
    }
    push_text(&mut b, "TLS Handshake:\n");
    let ghost head = spans_view(b@);
    assert(head =~= seq![plain("TLS Handshake:\n"@)]);
    let mut i: usize = 0;
    assert(all.take(0) =~= Seq::<TlsResultView>::empty());
    assert(head + Seq::<SpanView>::empty() =~= head);
    while i < results.len()
        invariant
            i <= results.len(),
            all == results@.map_values(|r: TlsResult| r@),
            spans_view(b@) == head + tls_blocks(all.take(i as int), colors),
        decreases results.len() - i,
    {
        assert(all.take(i + 1).drop_last() =~= all.take(i as int));
        extend(&mut b, tls_spans(&results[i], colors));
        assert(spans_view(b@) =~= head + tls_blocks(all.take(i + 1), colors));
        i += 1;
    }
    assert(all.take(results.len() as int) =~= all);
    push_text(&mut b, "\n");
    assert(spans_view(b@) =~= tls_section(all, colors));
    b
}

fn latency_section_spans(results: &Vec<LatencyResult>, colors: bool) -> (r: Vec<Span>)
    ensures
        spans_view(r@) == latency_section(results@.map_values(|r: LatencyResult| r@), colors),
{
    let ghost all = results@.map_values(|r: LatencyResult| r@);
    let mut b: Vec<Span> = Vec::new();
    if results.len() == 0 {
        assert(spans_view(b@) =~= Seq::<SpanView>::empty());
        return b;
    }
    push_text(&mut b, "Latency:\n");
    let ghost head = spans_view(b@);
    assert(head =~= seq![plain("Latency:\n"@)]);
    let mut i: usize = 0;
    assert(all.take(0) =~= Seq::<LatencyResultView>::empty());
    assert(head + Seq::<SpanView>::empty() =~= head);
    while i < results.len()
        invariant
            i <= results.len(),
            all == results@.map_values(|r: LatencyResult| r@),
            spans_view(b@) == head + latency_blocks(all.take(i as int), colors),
        decreases results.len() - i,
    {
        assert(all.take(i + 1).drop_last() =~= all.take(i as int));
        extend(&mut b, latency_spans(&results[i], colors));
        assert(spans_view(b@) =~= head + latency_blocks(all.take(i + 1), colors));
        i += 1;
    }
    assert(all.take(results.len() as int) =~= all);
    b
}

/// The findings as pieces of text with their looks.
pub fn diagnostics_spans(diagnostics: &NetworkDiagnostics, use_colors: bool) -> (r: Vec<Span>)
    ensures
        spans_view(r@) == diagnostics_layout(diagnostics@, use_colors),
{
    let mut b: Vec<Span> = Vec::new();
    push_text(&mut b, "\nNetwork Diagnostics\n");
    push_text(&mut b, "==================\n\n");
    assert(spans_view(b@) =~= seq![
        plain("\nNetwork Diagnostics\n"@),
        plain("==================\n\n"@),
    ]);
    extend(&mut b, dns_section_spans(&diagnostics.dns, use_colors));
    extend(&mut b, tls_section_spans(&diagnostics.tls, use_colors));
    extend(&mut b, latency_section_spans(&diagnostics.latency, use_colors));
    b
}

/// Format network diagnostics for human-readable output. Without colours
/// the result is the text of the layout; with colours each piece is shown
/// with its look, as far as the terminal library gives it one.
pub fn format_diagnostics(diagnostics: &NetworkDiagnostics, use_colors: bool) -> (r: String)
    ensures
        !use_colors ==> r@ == plain_text(diagnostics_layout(diagnostics@, false)),
        use_colors ==> exists|pieces: Seq<Seq<char>>| #[trigger]
            shows(pieces, diagnostics_layout(diagnostics@, true)) && r@ == joined(pieces),
{
    let spans = diagnostics_spans(diagnostics, use_colors);
    if use_colors {
        render(&spans)
    } else {
        render_plain(&spans)
    }
}

/// The result of a lookup as JSON.
pub open spec fn dns_json(r: DnsResultView) -> JsonView {
    JsonView::Object(
        seq![
            named("hostname"@, JsonView::Text(r.hostname)),
            named("resolved"@, JsonView::Bool(r.resolved)),
            named(
                "addresses"@,
                JsonView::Array(r.addresses.map_values(|a: Seq<char>| JsonView::Text(a))),
            ),
            named("duration_ms"@, JsonView::Number(decimal(r.duration_ms as nat))),
            named("error"@, optional_text(r.error)),
        ],
    )
}

/// The result of a handshake check as JSON.
pub open spec fn tls_json(r: TlsResultView) -> JsonView {
    JsonView::Object(
        seq![
            named("endpoint"@, JsonView::Text(r.endpoint)),
            named("success"@, JsonView::Bool(r.success)),
            named("duration_ms"@, JsonView::Number(decimal(r.duration_ms as nat))),
            named("error"@, optional_text(r.error)),
        ],
    )
}

/// The result of a latency measurement as JSON.
pub open spec fn latency_json(r: LatencyResultView) -> JsonView {
    JsonView::Object(
        seq![
            named("endpoint"@, JsonView::Text(r.endpoint)),
            named("latency_ms"@, JsonView::Number(decimal(r.latency_ms as nat))),
            named("success"@, JsonView::Bool(r.success)),
            named("error"@, optional_text(r.error)),
        ],
    )
}

/// The findings as JSON: the lookups, the handshake checks and the latency
/// measurements, each in their order.
pub open spec fn diagnostics_json(d: NetworkDiagnosticsView) -> JsonView {
    JsonView::Object(
        seq![
            named("dns"@, JsonView::Array(d.dns.map_values(|r: DnsResultView| dns_json(r)))),
            named("tls"@, JsonView::Array(d.tls.map_values(|r: TlsResultView| tls_json(r)))),
            named(
                "latency"@,
                JsonView::Array(d.latency.map_values(|r: LatencyResultView| latency_json(r))),
            ),
        ],
    )
}

/// The findings as indented JSON text, or the error of the writer.
pub open spec fn diagnostics_text(d: NetworkDiagnosticsView) -> Result<Seq<char>, AppErrorView> {
    match pretty_text_of(diagnostics_json(d)) {
        Ok(text) => Ok(text),
        Err(e) => Err(AppErrorView::Json(e)),
    }
}

impl DnsResult {
    /// The result as JSON.
    pub fn to_json(&self) -> (r: Json)
        ensures
            r@ == dns_json(self@),
    {
        let ghost all = strings_view(self.addresses@);
        let mut addresses: Vec<Json> = Vec::new();
        let mut i: usize = 0;
        while i < self.addresses.len()
            invariant
                i <= self.addresses.len(),
                all == strings_view(self.addresses@),
                addresses.len() == i,
                forall|k: int| 0 <= k < i ==> (#[trigger] addresses@[k])@ == JsonView::Text(all[k]),
            decreases self.addresses.len() - i,
        {
            assert(all[i as int] == self.addresses@[i as int]@);
            addresses.push(Json::text(self.addresses[i].as_str()));
            i += 1;
        }
        assert(items_view(addresses@) =~= all.map_values(|a: Seq<char>| JsonView::Text(a)));
        let mut m: Vec<Member> = Vec::new();
        m.push(member("hostname", Json::text(self.hostname.as_str())));
        m.push(member("resolved", Json::boolean(self.resolved)));
        m.push(member("addresses", Json::array(addresses)));
        m.push(member("duration_ms", Json::number(self.duration_ms)));
        m.push(member("error", Json::optional_text(&self.error)));
        assert(members_view(m@) =~= dns_json(self@)->Object_0);
        Json::object(m)
    }
}

impl TlsResult {
    /// The result as JSON.
    pub fn to_json(&self) -> (r: Json)
        ensures
            r@ == tls_json(self@),
    {
        let mut m: Vec<Member> = Vec::new();
        m.push(member("endpoint", Json::text(self.endpoint.as_str())));
        m.push(member("success", Json::boolean(self.success)));
        m.push(member("duration_ms", Json::number(self.duration_ms)));
        m.push(member("error", Json::optional_text(&self.error)));
        assert(members_view(m@) =~= tls_json(self@)->Object_0);
        Json::object(m)
    }
}

impl LatencyResult {
    /// The result as JSON.
    pub fn to_json(&self) -> (r: Json)
        ensures
            r@ == latency_json(self@),
    {
        let mut m: Vec<Member> = Vec::new();
        m.push(member("endpoint", Json::text(self.endpoint.as_str())));
        m.push(member("latency_ms", Json::number(self.latency_ms)));
        m.push(member("success", Json::boolean(self.success)));
        m.push(member("error", Json::optional_text(&self.error)));
        assert(members_view(m@) =~= latency_json(self@)->Object_0);
        Json::object(m)
    }
}

impl NetworkDiagnostics {
    /// The findings as JSON.
    pub fn to_json(&self) -> (r: Json)
        ensures
            r@ == diagnostics_json(self@),
    {
        let ghost view = self@;
        let mut dns: Vec<Json> = Vec::new();
        let mut i: usize = 0;
        while i < self.dns.len()
            invariant
                i <= self.dns.len(),
                view == self@,
                dns.len() == i,
                forall|k: int| 0 <= k < i ==> (#[trigger] dns@[k])@ == dns_json(view.dns[k]),
            decreases self.dns.len() - i,
        {
            assert(view.dns[i as int] == self.dns@[i as int]@);
            dns.push(self.dns[i].to_json());
            i += 1;
        }
        assert(items_view(dns@) =~= view.dns.map_values(|r: DnsResultView| dns_json(r)));
        let mut tls: Vec<Json> = Vec::new();
        let mut i: usize = 0;
        while i < self.tls.len()
            invariant
                i <= self.tls.len(),
                view == self@,
                tls.len() == i,
                forall|k: int| 0 <= k < i ==> (#[trigger] tls@[k])@ == tls_json(view.tls[k]),
            decreases self.tls.len() - i,
        {
            assert(view.tls[i as int] == self.tls@[i as int]@);
            tls.push(self.tls[i].to_json());
            i += 1;
        }
        assert(items_view(tls@) =~= view.tls.map_values(|r: TlsResultView| tls_json(r)));
        let mut latency: Vec<Json> = Vec::new();
        let mut i: usize = 0;
        while i < self.latency.len()
            invariant
                i <= self.latency.len(),
                view == self@,
                latency.len() == i,
                forall|k: int|
                    0 <= k < i ==> (#[trigger] latency@[k])@ == latency_json(view.latency[k]),
            decreases self.latency.len() - i,
        {
            assert(view.latency[i as int] == self.latency@[i as int]@);
            latency.push(self.latency[i].to_json());
            i += 1;
        }
        assert(items_view(latency@) =~= view.latency.map_values(
            |r: LatencyResultView| latency_json(r),
        ));
        let mut m: Vec<Member> = Vec::new();
        m.push(member("dns", Json::array(dns)));
        m.push(member("tls", Json::array(tls)));
        m.push(member("latency", Json::array(latency)));
        assert(members_view(m@) =~= diagnostics_json(view)->Object_0);
        Json::object(m)
    }
}

/// The findings as indented JSON text, or the error of the writer.
pub fn format_diagnostics_json(diagnostics: &NetworkDiagnostics) -> (r: Result<String, AppError>)
    ensures
        match r {
            Ok(text) => diagnostics_text(diagnostics@) == Ok::<Seq<char>, AppErrorView>(text@),
            Err(e) => diagnostics_text(diagnostics@) == Err::<Seq<char>, AppErrorView>(e@),
        },
{
    match diagnostics.to_json().pretty_text() {
        Ok(text) => Ok(text),
        Err(e) => Err(AppError::Json(e)),
    }
}

} // verus!
