//! The commands of the tool, as far as they decide and word things: what a
//! command answers, which exit status it ends with, and what it tells the
//! operator. Reading from the operator, the files and the network is the
//! caller's.

use crate::auth::device_code::TokenResult;
use crate::auth::token_cache::{
    lookup, CachedTokenEntry, CachedTokenEntryView, TokenCacheFile, DEFAULT_BUFFER_SECS,
};
use crate::cli::{with_underscores, CloudArg, LoginArgs, LoginAuthMethodArg, OutputFormatArg};
use crate::config::{
    AuthConfig, AuthConfigView, AuthMethod, Cloud, Config, ConfigView, CustomInputs,
    CustomInputsView, EntraConfig, EntraConfigView, GlobalConfig, OutputFormat, ServiceConfig,
    ServiceConfigView, ServiceEntry, ServiceEntryView, UserAuthConfig, UserAuthConfigView,
    DEFAULT_TIMEOUT_SECS,
};
use crate::error::{AppError, AppErrorView, ExitCode};
use crate::json::{member, members_view, named, Json, JsonView, Member};
use crate::network::DEFAULT_REGION;
use crate::output::TestReport;
use crate::paint::{plain, push_span, push_text, spans_view, tinted, Span, SpanView, Tint};
use crate::text::{
    clone_opt, comma_parts, decimal, lowercase_of, opt_view, replace_char, str_eq,
    str_split_commas, str_trim, strings_view, trimmed, u64_to_decimal,
};
use crate::time::{whole_minutes, Timestamp};
use vstd::prelude::*;
use vstd::string::*;

verus! {

/// Minutes that a token of a managed identity is shown to last.
pub const MANAGED_IDENTITY_MINUTES: u64 = 60;

/// Whether the output is coloured: on a terminal, unless quiet.
pub fn use_colors(is_terminal: bool, quiet: bool) -> (r: bool)
    ensures
        r == (is_terminal && !quiet),
{
    is_terminal && !quiet
}

/// The exit status of a test run: success where no result counts as
/// failed.
pub fn run_test(report: &TestReport) -> (r: ExitCode)
    ensures
        r == if report@.summary.failed == 0 {
            ExitCode::Success
        } else {
            ExitCode::TestFailure
        },
{
    if report.all_passed() {
        ExitCode::Success
    } else {
        ExitCode::TestFailure
    }
}

/// What is reported for an error that ends the tool: the error, and the
/// hint where there is one.
pub open spec fn error_lines(e: AppErrorView) -> Seq<SpanView> {
    seq![tinted(Tint::RedBold, "Error:"@), plain(" "@), plain(e.message()), plain("\n"@)] + (
    match e.hint() {
        Some(hint) => seq![
            plain("\n"@),
            tinted(Tint::YellowBold, "Hint:"@),
            plain(" "@),
            plain(hint),
            plain("\n"@),
        ],
        None => Seq::empty(),
    })
}

/// The report of an error that ends the tool, as pieces of text, with the
/// exit status that the error maps to.
pub fn main(e: &AppError) -> (r: (Vec<Span>, ExitCode))
    ensures
        spans_view(r.0@) == error_lines(e@),
        r.1 == e@.exit_code(),
{
    let mut b: Vec<Span> = Vec::new();
    push_span(&mut b, Tint::RedBold, "Error:");
    push_text(&mut b, " ");
    push_text(&mut b, e.message().as_str());
    push_text(&mut b, "\n");
    let ghost head = spans_view(b@);
    assert(head =~= seq![
        tinted(Tint::RedBold, "Error:"@),
        plain(" "@),
        plain(e@.message()),
        plain("\n"@),
    ]);
    match e.hint() {
        Some(hint) => {
            push_text(&mut b, "\n");
            push_span(&mut b, Tint::YellowBold, "Hint:");
            push_text(&mut b, " ");
            push_text(&mut b, hint);
            push_text(&mut b, "\n");
            assert(spans_view(b@) =~= head + seq![
                plain("\n"@),
                tinted(Tint::YellowBold, "Hint:"@),
                plain(" "@),
                plain(hint@),
                plain("\n"@),
            ]);
        },
        None => {
            assert(head + Seq::<SpanView>::empty() =~= head);
        },
    }
    (b, e.exit_code())
}

/// The whole minutes in a number of seconds.
pub fn token_minutes(expires_in_secs: u64) -> (r: u64)
    ensures
        r == expires_in_secs / 60,
{
    expires_in_secs / 60
}

/// The token that a login takes from the cache on disk, with the minutes
/// it still lasts: that of the first entry for the scope of the cloud and
/// the tenant that is valid at `now`.
pub fn cached_login(cache: &TokenCacheFile, cloud: Cloud, tenant_id: &str, now: &Timestamp) -> (r:
    Option<(String, u64)>)
    ensures
        match r {
            Some((token, minutes)) => lookup(
                cache@,
                cloud.scope_text(),
                tenant_id@,
                *now,
                DEFAULT_BUFFER_SECS,
            ) matches Some(e) && token@ == e.access_token && minutes == whole_minutes(
                e.expires_at.total_nanos() - now.total_nanos(),
            ),
            None => lookup(cache@, cloud.scope_text(), tenant_id@, *now, DEFAULT_BUFFER_SECS)
                is None,
        },
{
    match cache.get_valid_token_at(cloud.cognitive_scope(), tenant_id, now) {
        Some(entry) => {
            let minutes = entry.remaining_minutes_at(now);
            proof {
                crate::auth::token_cache::law_lookup_is_valid(
                    cache@,
                    cloud.scope_text(),
                    tenant_id@,
                    *now,
                    DEFAULT_BUFFER_SECS,
                );
            }
            assert(minutes >= 0);
            Some((entry.access_token.clone(), minutes as u64))
        },
        None => None,
    }
}

/// The cache entry for the result of a login at `now`, or `None` where its
/// expiry is no valid point in time.
pub fn login_entry(result: &TokenResult, tenant_id: &str, now: &Timestamp) -> (r: Option<
    CachedTokenEntry,
>)
    ensures
        match r {
            Some(e) => e@ == (CachedTokenEntryView {
                access_token: result@.access_token,
                expires_at: Timestamp {
                    secs: (now.secs + result.expires_in_secs) as i64,
                    nanos: now.nanos,
                },
                scope: result@.scope,
                tenant_id: tenant_id@,
            }) && e.expires_at.valid(),
            None => !crate::auth::token_cache::expiry_is_valid(*now, result.expires_in_secs),
        },
{
    CachedTokenEntry::issued(
        result.access_token.clone(),
        result.scope.clone(),
        tenant_id.to_owned(),
        now,
        result.expires_in_secs,
    )
}

/// The notice that a cached token is used.
pub open spec fn cached_lines(minutes: u64) -> Seq<SpanView> {
    seq![
        plain("  "@),
        tinted(Tint::Cyan, "[*]"@),
        plain(" Using cached token ("@),
        plain(decimal(minutes as nat)),
        plain(" minutes remaining)\n\n"@),
    ]
}

/// The notice that a cached token is used, as pieces of text.
pub fn cached_notice(minutes: u64) -> (r: Vec<Span>)
    ensures
        spans_view(r@) == cached_lines(minutes),
{
    let mut b: Vec<Span> = Vec::new();
    push_text(&mut b, "  ");
    push_span(&mut b, Tint::Cyan, "[*]");
    push_text(&mut b, " Using cached token (");
    push_text(&mut b, u64_to_decimal(minutes).as_str());
    push_text(&mut b, " minutes remaining)\n\n");
    assert(spans_view(b@) =~= cached_lines(minutes));
    b
}

/// A notice under a green mark.
pub open spec fn done_lines(indent: Seq<char>, words: Seq<char>) -> Seq<SpanView> {
    seq![plain(indent), tinted(Tint::Green, "[+]"@), plain(words)]
}

fn done_notice(indent: &str, words: &str) -> (r: Vec<Span>)
    ensures
        spans_view(r@) == done_lines(indent@, words@),
{
    let mut b: Vec<Span> = Vec::new();
    push_text(&mut b, indent);
    push_span(&mut b, Tint::Green, "[+]");
    push_text(&mut b, words);
    assert(spans_view(b@) =~= done_lines(indent@, words@));
    b
}

/// The notice that the token was saved to the cache.
pub fn saved_notice() -> (r: Vec<Span>)
    ensures
        spans_view(r@) == done_lines("  "@, " Token saved to cache.\n\n"@),
{
    done_notice("  ", " Token saved to cache.\n\n")
}

/// The notice that the cache was cleared.
pub fn cleared_notice() -> (r: Vec<Span>)
    ensures
        spans_view(r@) == done_lines(Seq::empty(), " Token cache cleared.\n"@),
{
    proof {
        reveal_strlit("");
        assert(""@ =~= Seq::<char>::empty());
    }
    done_notice("", " Token cache cleared.\n")
}

/// The heading over a token that is shown to people.
pub open spec fn token_heading(expires_in_minutes: u64) -> Seq<SpanView> {
    seq![
        tinted(Tint::Bold, "Bearer Token"@),
        plain(" (expires in ~"@),
        plain(decimal(expires_in_minutes as nat)),
        plain(" minutes):\n"@),
    ]
}

/// A token as JSON: the token and the minutes it lasts.
pub open spec fn token_json(token: Seq<char>, expires_in_minutes: u64) -> JsonView {
    JsonView::Object(
        seq![
            named("access_token"@, JsonView::Text(token)),
            named("expires_in_minutes"@, JsonView::Number(decimal(expires_in_minutes as nat))),
        ],
    )
}

/// A token as it is put out.
#[derive(Debug)]
pub enum TokenOutput {
    /// For people: a heading for the error stream, and the token for the
    /// output stream.
    Human { heading: Vec<Span>, token: String },
    /// For programs: one JSON value for the output stream.
    Json(Json),
}

/// Output the token in the requested format: as JSON where that is asked
/// for, else as a heading and the token.
pub fn output_token(token: &str, expires_in_minutes: u64, format: OutputFormat) -> (r:
    TokenOutput)
    ensures
        match r {
            TokenOutput::Human { heading, token: shown } => format != OutputFormat::Json
                && spans_view(heading@) == token_heading(expires_in_minutes) && shown@ == token@,
            TokenOutput::Json(j) => format == OutputFormat::Json && j@ == token_json(
                token@,
                expires_in_minutes,
            ),
        },
{
    match format {
        OutputFormat::Json => {
            let mut m: Vec<Member> = Vec::new();
            m.push(member("access_token", Json::text(token)));
            m.push(member("expires_in_minutes", Json::number(expires_in_minutes)));
            assert(members_view(m@) =~= token_json(token@, expires_in_minutes)->Object_0);
            TokenOutput::Json(Json::object(m))
        },
        _ => {
            let mut b: Vec<Span> = Vec::new();
            push_span(&mut b, Tint::Bold, "Bearer Token");
            push_text(&mut b, " (expires in ~");
            push_text(&mut b, u64_to_decimal(expires_in_minutes).as_str());
            push_text(&mut b, " minutes):\n");
            assert(spans_view(b@) =~= token_heading(expires_in_minutes));
            TokenOutput::Human { heading: b, token: token.to_owned() }
        },
    }
}

/// How the operator signs in.
#[derive(Debug, Clone, Copy, PartialEq, Eq, Structural)]
pub enum SignInFlow {
    /// In the browser, with the authorization-code flow.
    Interactive,
    /// On another device, with the device-code flow.
    DeviceCode,
}

/// What a login does.
#[derive(Debug)]
pub enum LoginPlan {
    /// The cache of tokens on disk is deleted, and nothing else is done.
    ClearCache,
    /// The token of the managed identity is asked for and shown as one
    /// that lasts `MANAGED_IDENTITY_MINUTES`.
    ManagedIdentity { cloud: Cloud, format: OutputFormat },
    /// The operator signs in for a tenant. A token that the cache on disk
    /// holds for the tenant is shown instead where it is still valid; a
    /// token that the flow hands out is kept in the cache where `save` is
    /// set, and shown.
    SignIn {
        flow: SignInFlow,
        tenant_id: String,
        client_id: Option<String>,
        cloud: Cloud,
        save: bool,
        format: OutputFormat,
    },
}

pub ghost enum LoginPlanView {
    ClearCache,
    ManagedIdentity { cloud: Cloud, format: OutputFormat },
    SignIn {
        flow: SignInFlow,
        tenant_id: Seq<char>,
        client_id: Option<Seq<char>>,
        cloud: Cloud,
        save: bool,
        format: OutputFormat,
    },
}

impl View for LoginPlan {
    type V = LoginPlanView;

    open spec fn view(&self) -> LoginPlanView {
        match self {
            LoginPlan::ClearCache => LoginPlanView::ClearCache,
            LoginPlan::ManagedIdentity { cloud, format } => LoginPlanView::ManagedIdentity {
                cloud: *cloud,
                format: *format,
            },
            LoginPlan::SignIn { flow, tenant_id, client_id, cloud, save, format } => {
                LoginPlanView::SignIn {
                    flow: *flow,
                    tenant_id: tenant_id@,
                    client_id: opt_view(*client_id),
                    cloud: *cloud,
                    save: *save,
                    format: *format,
                }
            },
        }
    }
}

/// What a login does for its arguments.
///
/// - Asked to clear the cache, it does that and nothing else, whatever
///   the other arguments say.
/// - With a managed identity it needs no tenant.
/// - Else the operator signs in, and a tenant has to be named: without one
///   the login fails before anything is sent, with the configuration error
///   that names `tenant_id` and the method.
pub open spec fn login_plan(
    clear_cache: bool,
    auth: LoginAuthMethodArg,
    tenant: Option<Seq<char>>,
    client_id: Option<Seq<char>>,
    cloud: CloudArg,
    output: OutputFormatArg,
    save: bool,
) -> Result<LoginPlanView, AppErrorView> {
    if clear_cache {
        Ok(LoginPlanView::ClearCache)
    } else if auth == LoginAuthMethodArg::ManagedIdentity {
        Ok(LoginPlanView::ManagedIdentity { cloud: cloud.cloud(), format: output.format() })
    } else if tenant is None {
        Err(
            crate::auth::lacking(
                if auth == LoginAuthMethodArg::Interactive {
                    AuthMethod::Interactive
                } else {
                    AuthMethod::DeviceCode
                },
            ),
        )
    } else {
        Ok(
            LoginPlanView::SignIn {
                flow: if auth == LoginAuthMethodArg::Interactive {
                    SignInFlow::Interactive
                } else {
                    SignInFlow::DeviceCode
                },
                tenant_id: tenant->0,
                client_id,
                cloud: cloud.cloud(),
                save,
                format: output.format(),
            },
        )
    }
}

/// Decides what a login does, or why it cannot begin.
pub fn run_login(args: LoginArgs) -> (r: Result<LoginPlan, AppError>)
    ensures
        match r {
            Ok(plan) => login_plan(
                args.clear_cache,
                args.auth,
                opt_view(args.tenant),
                opt_view(args.client_id),
                args.cloud,
                args.output,
                args.save,
            ) == Ok::<LoginPlanView, AppErrorView>(plan@),
            Err(e) => login_plan(
                args.clear_cache,
                args.auth,
                opt_view(args.tenant),
                opt_view(args.client_id),
                args.cloud,
                args.output,
                args.save,
            ) == Err::<LoginPlanView, AppErrorView>(e@),
        },
{
    let LoginArgs { tenant, auth, cloud, client_id, output, save, clear_cache } = args;
    if clear_cache {
        return Ok(LoginPlan::ClearCache);
    }
    let cloud: Cloud = match cloud {
        CloudArg::Global => Cloud::Global,
        CloudArg::China => Cloud::China,
    };
    let format: OutputFormat = match output {
        OutputFormatArg::Human => OutputFormat::Human,
        OutputFormatArg::Json => OutputFormat::Json,
        OutputFormatArg::Junit => OutputFormat::Junit,
    };
    let flow = match auth {
        LoginAuthMethodArg::ManagedIdentity => {
            return Ok(LoginPlan::ManagedIdentity { cloud, format });
        },
        LoginAuthMethodArg::Interactive => SignInFlow::Interactive,
        LoginAuthMethodArg::DeviceCode => SignInFlow::DeviceCode,
    };
    match tenant {
        Some(tenant_id) => Ok(
            LoginPlan::SignIn { flow, tenant_id, client_id, cloud, save, format },
        ),
        None => Err(
            crate::auth::lacking_error(
                match flow {
                    SignInFlow::Interactive => AuthMethod::Interactive,
                    SignInFlow::DeviceCode => AuthMethod::DeviceCode,
                },
            ),
        ),
    }
}

/// The region of the diagnostics: the one that is named, else `eastus`.
pub fn diagnose_region(region: Option<String>) -> (r: String)
    ensures
        r@ == match region {
            Some(x) => x@,
            None => DEFAULT_REGION@,
        },
{
    match region {
        Some(x) => x,
        None => DEFAULT_REGION.to_owned(),
    }
}

/// The notice that the diagnostics run.
pub open spec fn diagnose_lines(region: Seq<char>, cloud: Cloud) -> Seq<SpanView> {
    seq![
        tinted(Tint::Cyan, "[*]"@),
        plain(" Running network diagnostics for "@),
        plain(region),
        plain(" ("@),
        plain(cloud.name_text()),
        plain(")...\n"@),
    ]
}

/// The notice that the diagnostics run, as pieces of text.
pub fn run_diagnose(region: &str, cloud: Cloud) -> (r: Vec<Span>)
    ensures
        spans_view(r@) == diagnose_lines(region@, cloud),
{
    let mut b: Vec<Span> = Vec::new();
    push_span(&mut b, Tint::Cyan, "[*]");
    push_text(&mut b, " Running network diagnostics for ");
    push_text(&mut b, region);
    push_text(&mut b, " (");
    push_text(&mut b, cloud.name());
    push_text(&mut b, ")...\n");
    assert(spans_view(b@) =~= diagnose_lines(region@, cloud));
    b
}

/// Whether a settings file may be written: not over a file that is there,
/// unless that is forced.
pub fn run_init(path: &str, is_there: bool, force: bool) -> (r: Result<(), AppError>)
    ensures
        r is Ok <==> (!is_there || force),
        r matches Err(e) ==> e@ == AppErrorView::Config(
            "File already exists: "@ + path@ + ". Use --force to overwrite."@,
        ),
{
    if is_there && !force {
        let mut m = "File already exists: ".to_owned();
        m.append(path);
        m.append(". Use --force to overwrite.");
        Err(AppError::Config(m))
    } else {
        Ok(())
    }
}

/// What the operator is told after a settings file was written.
pub open spec fn created_lines(path: Seq<char>, interactive: bool) -> Seq<SpanView> {
    seq![
        tinted(Tint::Green, "[+]"@),
        plain(" Configuration file created: "@),
        plain(path),
        plain("\n"@),
    ] + (if interactive {
        Seq::empty()
    } else {
        seq![
            plain("Edit the file to add your API keys and customize settings.\nOr run "@),
            tinted(Tint::Cyan, "azure-aitoolsconnect init --interactive"@),
            plain(" for guided setup.\n"@),
        ]
    })
}

/// The notice that a settings file was written, as pieces of text.
pub fn created_notice(path: &str, interactive: bool) -> (r: Vec<Span>)
    ensures
        spans_view(r@) == created_lines(path@, interactive),
{
    let mut b: Vec<Span> = Vec::new();
    push_span(&mut b, Tint::Green, "[+]");
    push_text(&mut b, " Configuration file created: ");
    push_text(&mut b, path);
    push_text(&mut b, "\n");
    let ghost head = spans_view(b@);
    assert(head =~= seq![
        tinted(Tint::Green, "[+]"@),
        plain(" Configuration file created: "@),
        plain(path@),
        plain("\n"@),
    ]);
    if !interactive {
        push_text(&mut b, "Edit the file to add your API keys and customize settings.\nOr run ");
        push_span(&mut b, Tint::Cyan, "azure-aitoolsconnect init --interactive");
        push_text(&mut b, " for guided setup.\n");
        assert(spans_view(b@) =~= head + seq![
            plain("Edit the file to add your API keys and customize settings.\nOr run "@),
            tinted(Tint::Cyan, "azure-aitoolsconnect init --interactive"@),
            plain(" for guided setup.\n"@),
        ]);
    } else {
        assert(head + Seq::<SpanView>::empty() =~= head);
    }
    b
}

/// The answer to a question: the line that was read, without the white
/// space at its ends, or the default where nothing is left of it.
pub open spec fn answer_of(line: Seq<char>, default: Seq<char>) -> Seq<char> {
    if trimmed(line).len() == 0 {
        default
    } else {
        trimmed(line)
    }
}

/// The answer to a question with a default.
pub fn prompt_input(line: &str, default: &str) -> (r: String)
    ensures
        r@ == answer_of(line@, default@),
{
    let input = str_trim(line);
    if input.as_str().is_empty() {
        default.to_owned()
    } else {
        input
    }
}

/// The choice that a line stands for: the line in lower case without the
/// white space at its ends, where it is one of the options; else the
/// default. The flag says that the line named no option.
pub open spec fn choice_of(line: Seq<char>, options: Seq<Seq<char>>, default: Seq<char>) -> (
    Seq<char>,
    bool,
) {
    choice_for(lowercase_of(trimmed(line)), options, default)
}

/// The choice that an answer in lower case stands for: the answer where it
/// is one of the options, else the default. The flag says that the answer
/// named no option; an empty answer asks for the default.
pub open spec fn choice_for(input: Seq<char>, options: Seq<Seq<char>>, default: Seq<char>) -> (
    Seq<char>,
    bool,
) {
    if input.len() == 0 {
        (default, false)
    } else if options.contains(input) {
        (input, false)
    } else {
        (default, true)
    }
}

fn among(options: &[&str], word: &str) -> (r: bool)
    ensures
        r == options@.map_values(|o: &str| o@).contains(word@),
{
    let ghost all = options@.map_values(|o: &str| o@);
    let mut i: usize = 0;
    while i < options.len()
        invariant
            i <= options.len(),
            all == options@.map_values(|o: &str| o@),
            forall|k: int| 0 <= k < i ==> all[k] != word@,
        decreases options.len() - i,
    {
        if str_eq(options[i], word) {
            assert(all[i as int] == word@);
            return true;
        }
        i += 1;
    }
    false
}

/// The warning for a line that names no option.
pub open spec fn invalid_choice_lines(input: Seq<char>, default: Seq<char>) -> Seq<SpanView> {
    seq![
        plain("  "@),
        tinted(Tint::Yellow, "[!]"@),
        plain(" Invalid choice '"@),
        plain(input),
        plain("', using default '"@),
        plain(default),
        plain("'\n"@),
    ]
}

/// The choice that a line stands for, with the warning for a line that
/// names no option.
pub fn prompt_choice(line: &str, options: &[&str], default: &str) -> (r: (String, Vec<Span>))
    ensures
        r.0@ == choice_of(line@, options@.map_values(|o: &str| o@), default@).0,
        spans_view(r.1@) == if choice_of(line@, options@.map_values(|o: &str| o@), default@).1 {
            invalid_choice_lines(lowercase_of(trimmed(line@)), default@)
        } else {
            Seq::empty()
        },
{
    let input = str_trim(line).as_str().to_lowercase();
    choice(input.as_str(), options, default)
}

/// The choice that an answer in lower case stands for, with the warning
/// for an answer that names no option.
pub fn choice(input: &str, options: &[&str], default: &str) -> (r: (String, Vec<Span>))
    ensures
        r.0@ == choice_for(input@, options@.map_values(|o: &str| o@), default@).0,
        spans_view(r.1@) == if choice_for(input@, options@.map_values(|o: &str| o@), default@).1 {
            invalid_choice_lines(input@, default@)
        } else {
            Seq::empty()
        },
{
    let mut warning: Vec<Span> = Vec::new();
    assert(spans_view(warning@) =~= Seq::<SpanView>::empty());
    if input.is_empty() {
        (default.to_owned(), warning)
    } else if among(options, input) {
        (input.to_owned(), warning)
    } else {
        push_text(&mut warning, "  ");
        push_span(&mut warning, Tint::Yellow, "[!]");
        push_text(&mut warning, " Invalid choice '");
        push_text(&mut warning, input);
        push_text(&mut warning, "', using default '");
        push_text(&mut warning, default);
        push_text(&mut warning, "'\n");
        assert(spans_view(warning@) =~= invalid_choice_lines(input@, default@));
        (default.to_owned(), warning)
    }
}

/// The label of a question with a default.
pub open spec fn input_label(label: Seq<char>, default: Seq<char>) -> Seq<SpanView> {
    if default.len() == 0 {
        seq![plain("  "@), tinted(Tint::Bold, label), plain(": "@)]
    } else {
        seq![
            plain("  "@),
            tinted(Tint::Bold, label),
            plain(" ["@),
            tinted(Tint::Dim, default),
            plain("]: "@),
        ]
    }
}

/// The options of a choice, with `/` between them.
pub open spec fn joined_options(options: Seq<Seq<char>>) -> Seq<char>
    decreases options.len(),
{
    if options.len() == 0 {
        Seq::empty()
    } else if options.len() == 1 {
        options[0]
    } else {
        joined_options(options.drop_last()) + "/"@ + options.last()
    }
}

/// The label of a choice.
pub open spec fn choice_label(label: Seq<char>, options: Seq<Seq<char>>, default: Seq<char>) -> Seq<
    SpanView,
> {
    seq![
        plain("  "@),
        tinted(Tint::Bold, label),
        plain(" ("@),
        plain(joined_options(options)),
        plain(") ["@),
        tinted(Tint::Dim, default),
        plain("]: "@),
    ]
}

fn join_options(options: &[&str]) -> (r: String)
    ensures
        r@ == joined_options(options@.map_values(|o: &str| o@)),
{
    let ghost all = options@.map_values(|o: &str| o@);
    let mut r = String::new();
    let mut i: usize = 0;
    assert(all.take(0) =~= Seq::<Seq<char>>::empty());
    while i < options.len()
        invariant
            i <= options.len(),
            all == options@.map_values(|o: &str| o@),
            r@ == joined_options(all.take(i as int)),
        decreases options.len() - i,
    {
        assert(all.take(i + 1).drop_last() =~= all.take(i as int));
        if i > 0 {
            r.append("/");
        } else {
            assert(r@ =~= Seq::<char>::empty());
            assert(Seq::<char>::empty() + all[0] =~= all[0]);
        }
        r.append(options[i]);
        i += 1;
    }
    assert(all.take(options.len() as int) =~= all);
    r
}

/// A question of the wizard.
#[derive(Debug)]
pub enum Prompt {
    /// A question that any line answers.
    Input { label: &'static str, default: &'static str },
    /// A question that one of some options answers.
    Choice { label: &'static str, options: Vec<&'static str>, default: &'static str },
}

impl Prompt {
    /// The label that is shown for the question, as pieces of text.
    pub fn label(&self) -> (r: Vec<Span>)
        ensures
            spans_view(r@) == match self {
                Prompt::Input { label, default } => input_label(label@, default@),
                Prompt::Choice { label, options, default } => choice_label(
                    label@,
                    options@.map_values(|o: &str| o@),
                    default@,
                ),
            },
    {
        let mut b: Vec<Span> = Vec::new();
        match self {
            Prompt::Input { label, default } => {
                push_text(&mut b, "  ");
                push_span(&mut b, Tint::Bold, label);
                if default.is_empty() {
                    push_text(&mut b, ": ");
                } else {
                    push_text(&mut b, " [");
                    push_span(&mut b, Tint::Dim, default);
                    push_text(&mut b, "]: ");
                }
                assert(spans_view(b@) =~= input_label(label@, default@));
            },
            Prompt::Choice { label, options, default } => {
                push_text(&mut b, "  ");
                push_span(&mut b, Tint::Bold, label);
                push_text(&mut b, " (");
                push_text(&mut b, join_options(options.as_slice()).as_str());
                push_text(&mut b, ") [");
                push_span(&mut b, Tint::Dim, default);
                push_text(&mut b, "]: ");
                assert(spans_view(b@) =~= choice_label(
                    label@,
                    options@.map_values(|o: &str| o@),
                    default@,
                ));
            },
        }
        b
    }
}

/// The questions of the wizard, in their order.
#[derive(Debug, Clone, Copy, PartialEq, Eq, Structural)]
pub enum WizardStep {
    Cloud,
    Region,
    Auth,
    ApiKey,
    Tenant,
    Endpoint,
    Services,
    Done,
}

/// The state of the wizard: the question that is open and the answers so
/// far.
#[derive(Debug)]
pub struct Wizard {
    pub step: WizardStep,
    pub cloud: Cloud,
    pub region: String,
    pub auth_method: AuthMethod,
    pub api_key: Option<String>,
    pub tenant_id: Option<String>,
    pub endpoint: Option<String>,
    /// The services as the operator named them.
    pub services: String,
}

pub ghost struct WizardView {
    pub step: WizardStep,
    pub cloud: Cloud,
    pub region: Seq<char>,
    pub auth_method: AuthMethod,
    pub api_key: Option<Seq<char>>,
    pub tenant_id: Option<Seq<char>>,
    pub endpoint: Option<Seq<char>>,
    pub services: Seq<char>,
}

impl View for Wizard {
    type V = WizardView;

    open spec fn view(&self) -> WizardView {
        WizardView {
            step: self.step,
            cloud: self.cloud,
            region: self.region@,
            auth_method: self.auth_method,
            api_key: opt_view(self.api_key),
            tenant_id: opt_view(self.tenant_id),
            endpoint: opt_view(self.endpoint),
            services: self.services@,
        }
    }
}

/// An answer that may be left blank.
pub open spec fn optional_answer(line: Seq<char>) -> Option<Seq<char>> {
    if trimmed(line).len() == 0 {
        None
    } else {
        Some(trimmed(line))
    }
}

/// The question that follows the choice of a method: the key for the key
/// method, the tenant for device code, else the endpoint.
pub open spec fn step_after_auth(method: AuthMethod) -> WizardStep {
    match method {
        AuthMethod::Key => WizardStep::ApiKey,
        AuthMethod::DeviceCode => WizardStep::Tenant,
        _ => WizardStep::Endpoint,
    }
}

impl WizardView {
    /// The wizard before the first question.
    pub open spec fn start() -> WizardView {
        WizardView {
            step: WizardStep::Cloud,
            cloud: Cloud::Global,
            region: "eastus"@,
            auth_method: AuthMethod::Key,
            api_key: None,
            tenant_id: None,
            endpoint: None,
            services: "all"@,
        }
    }

    /// The wizard after a line was read as the answer to the open
    /// question.
    pub open spec fn answered(self, line: Seq<char>) -> WizardView {
        self.answered_with(line, lowercase_of(trimmed(line)))
    }

    /// The wizard after a line was read as the answer to the open
    /// question, where `lowered` is the line in lower case without the
    /// white space at its ends. A question with options reads `lowered`,
    /// the others read the line.
    pub open spec fn answered_with(self, line: Seq<char>, lowered: Seq<char>) -> WizardView {
        match self.step {
            WizardStep::Cloud => WizardView {
                step: WizardStep::Region,
                cloud: match Cloud::named(
                    choice_for(lowered, seq!["global"@, "china"@], "global"@).0,
                ) {
                    Some(c) => c,
                    None => Cloud::Global,
                },
                ..self
            },
            WizardStep::Region => WizardView {
                step: WizardStep::Auth,
                region: answer_of(line, "eastus"@),
                ..self
            },
            WizardStep::Auth => {
                let method = match AuthMethod::named(
                    choice_for(
                        lowered,
                        seq!["key"@, "device-code"@, "managed-identity"@, "manual-token"@],
                        "key"@,
                    ).0,
                ) {
                    Some(m) => m,
                    None => AuthMethod::Key,
                };
                WizardView { step: step_after_auth(method), auth_method: method, ..self }
            },
            WizardStep::ApiKey => WizardView {
                step: WizardStep::Endpoint,
                api_key: optional_answer(line),
                ..self
            },
            WizardStep::Tenant => WizardView {
                step: WizardStep::Endpoint,
                tenant_id: optional_answer(line),
                ..self
            },
            WizardStep::Endpoint => WizardView {
                step: WizardStep::Services,
                endpoint: optional_answer(line),
                ..self
            },
            WizardStep::Services => WizardView {
                step: WizardStep::Done,
                services: answer_of(line, "all"@),
                ..self
            },
            WizardStep::Done => self,
        }
    }

    /// The names of the services that the operator asked for: the five
    /// services for `all`, else the parts between the commas, each without
    /// the white space at its ends, in lower case and with `_` for `-`.
    pub open spec fn service_names(self) -> Seq<Seq<char>> {
        service_names_for(
            lowercase_of(self.services),
            comma_parts(self.services).map_values(|p: Seq<char>| lowercase_of(trimmed(p))),
        )
    }

    /// The settings of each service that the wizard sets up.
    pub open spec fn service(self) -> ServiceConfigView {
        ServiceConfigView {
            enabled: true,
            region: Some(self.region),
            endpoint: self.endpoint,
            api_key: self.api_key,
            test_scenarios: Seq::empty(),
        }
    }
}

/// The names of the services that an answer asks for, where `whole` is the
/// answer in lower case and `parts` are its parts between the commas, each
/// without the white space at its ends and in lower case: the five
/// services where the answer is `all`, else the parts with `_` for `-`.
pub open spec fn service_names_for(whole: Seq<char>, parts: Seq<Seq<char>>) -> Seq<Seq<char>> {
    if whole == "all"@ {
        crate::cli::all_services()
    } else {
        parts.map_values(|p: Seq<char>| replace_char(p, '-', '_'))
    }
}

/// The names of a list without those that occur earlier in it.
pub open spec fn first_occurrences(names: Seq<Seq<char>>) -> Seq<Seq<char>>
    decreases names.len(),
{
    if names.len() == 0 {
        Seq::empty()
    } else if names.drop_last().contains(names.last()) {
        first_occurrences(names.drop_last())
    } else {
        first_occurrences(names.drop_last()).push(names.last())
    }
}

/// The settings that the wizard ends with: each service that was named,
/// once, with the region, the key and the endpoint of the answers.
pub open spec fn wizard_config(w: WizardView) -> ConfigView {
    wizard_config_for(w, w.service_names())
}

/// The settings that the wizard ends with for the services of these
/// names: each name once, at the place where it occurs first.
pub open spec fn wizard_config_for(w: WizardView, names: Seq<Seq<char>>) -> ConfigView {
    ConfigView {
        global: GlobalConfig {
            cloud: w.cloud,
            timeout_seconds: DEFAULT_TIMEOUT_SECS,
            output_format: OutputFormat::Human,
        },
        auth: AuthConfigView {
            default_method: w.auth_method,
            entra: EntraConfigView::empty(),
            user: UserAuthConfigView { tenant_id: w.tenant_id, ..UserAuthConfigView::empty() },
        },
        services: first_occurrences(names).map_values(
            |name: Seq<char>| ServiceEntryView { name, config: w.service() },
        ),
        custom_inputs: CustomInputsView::empty(),
    }
}

/// The names of the services that an answer asks for, where `whole` is the
/// answer in lower case and `parts` are its parts between the commas, each
/// without the white space at its ends and in lower case.
pub fn service_names_of(whole: &str, parts: &[String]) -> (r: Vec<String>)
    ensures
        strings_view(r@) == service_names_for(whole@, strings_view(parts@)),
{
    if str_eq(whole, "all") {
        let mut r: Vec<String> = Vec::new();
        r.push("speech".to_owned());
        r.push("translator".to_owned());
        r.push("language".to_owned());
        r.push("vision".to_owned());
        r.push("document_intelligence".to_owned());
        assert(strings_view(r@) =~= crate::cli::all_services());
        r
    } else {
        with_underscores(parts)
    }
}

fn optional(line: &str) -> (r: Option<String>)
    ensures
        opt_view(r) == optional_answer(line@),
{
    let t = str_trim(line);
    if t.as_str().is_empty() {
        None
    } else {
        Some(t)
    }
}

fn contains_name(names: &Vec<String>, upto: usize, name: &str) -> (r: bool)
    requires
        upto <= names.len(),
    ensures
        r == strings_view(names@).take(upto as int).contains(name@),
{
    let ghost all = strings_view(names@).take(upto as int);
    let mut i: usize = 0;
    while i < upto
        invariant
            i <= upto <= names.len(),
            all == strings_view(names@).take(upto as int),
            forall|k: int| 0 <= k < i ==> all[k] != name@,
        decreases upto - i,
    {
        if str_eq(names[i].as_str(), name) {
            assert(all[i as int] == name@);
            return true;
        }
        i += 1;
    }
    false
}

impl Wizard {
    /// The wizard before the first question.
    pub fn start() -> (r: Wizard)
        ensures
            r@ == WizardView::start(),
    {
        Wizard {
            step: WizardStep::Cloud,
            cloud: Cloud::Global,
            region: "eastus".to_owned(),
            auth_method: AuthMethod::Key,
            api_key: None,
            tenant_id: None,
            endpoint: None,
            services: "all".to_owned(),
        }
    }

    /// The question that is open; none once the wizard is done.
    pub fn prompt(&self) -> (r: Option<Prompt>)
        ensures
            r is None <==> self.step == WizardStep::Done,
    {
        match self.step {
            WizardStep::Cloud => {
                let mut options: Vec<&'static str> = Vec::new();
                options.push("global");
                options.push("china");
                Some(Prompt::Choice { label: "Cloud environment", options, default: "global" })
            },
            WizardStep::Region => Some(Prompt::Input { label: "Azure region", default: "eastus" }),
            WizardStep::Auth => {
                let mut options: Vec<&'static str> = Vec::new();
                options.push("key");
                options.push("device-code");
                options.push("managed-identity");
                options.push("manual-token");
                Some(Prompt::Choice { label: "Authentication method", options, default: "key" })
            },
            WizardStep::ApiKey => Some(
                Prompt::Input { label: "API key (leave blank to set later)", default: "" },
            ),
            WizardStep::Tenant => Some(Prompt::Input { label: "Tenant ID", default: "" }),
            WizardStep::Endpoint => Some(
                Prompt::Input {
                    label: "Custom endpoint URL (leave blank for regional)",
                    default: "",
                },
            ),
            WizardStep::Services => Some(
                Prompt::Input {
                    label: "Services to enable (comma-separated, or 'all')",
                    default: "all",
                },
            ),
            WizardStep::Done => None,
        }
    }

    /// Takes a line as the answer to the open question and moves on to the
    /// next one. An answer that names no cloud or no method stands for the
    /// default.
    pub fn answer(self, line: &str) -> (r: Wizard)
        ensures
            r@ == self@.answered(line@),
    {
        let lowered = str_trim(line).as_str().to_lowercase();
        self.answer_with(line, lowered.as_str())
    }

    /// Takes a line as the answer to the open question, where `lowered` is
    /// the line in lower case without the white space at its ends, and
    /// moves on to the next question. A question with options reads
    /// `lowered`, the others read the line.
    pub fn answer_with(self, line: &str, lowered: &str) -> (r: Wizard)
        ensures
            r@ == self@.answered_with(line@, lowered@),
    {
        match self.step {
            WizardStep::Cloud => {
                let options = ["global", "china"];
                assert(options@.map_values(|o: &str| o@) =~= seq!["global"@, "china"@]);
                let (word, _) = choice(lowered, &options, "global");
                let cloud = match Cloud::from_lowercase(word.as_str()) {
                    Some(c) => c,
                    None => Cloud::Global,
                };
                Wizard { step: WizardStep::Region, cloud, ..self }
            },
            WizardStep::Region => Wizard {
                step: WizardStep::Auth,
                region: prompt_input(line, "eastus"),
                ..self
            },
            WizardStep::Auth => {
                let options = ["key", "device-code", "managed-identity", "manual-token"];
                assert(options@.map_values(|o: &str| o@) =~= seq![
                    "key"@,
                    "device-code"@,
                    "managed-identity"@,
                    "manual-token"@,
                ]);
                let (word, _) = choice(lowered, &options, "key");
                let method = match AuthMethod::from_lowercase(word.as_str()) {
                    Some(m) => m,
                    None => AuthMethod::Key,
                };
                let step = match method {
                    AuthMethod::Key => WizardStep::ApiKey,
                    AuthMethod::DeviceCode => WizardStep::Tenant,
                    _ => WizardStep::Endpoint,
                };
                Wizard { step, auth_method: method, ..self }
            },
            WizardStep::ApiKey => Wizard {
                step: WizardStep::Endpoint,
                api_key: optional(line),
                ..self
            },
            WizardStep::Tenant => Wizard {
                step: WizardStep::Endpoint,
                tenant_id: optional(line),
                ..self
            },
            WizardStep::Endpoint => Wizard {
                step: WizardStep::Services,
                endpoint: optional(line),
                ..self
            },
            WizardStep::Services => Wizard {
                step: WizardStep::Done,
                services: prompt_input(line, "all"),
                ..self
            },
            WizardStep::Done => self,
        }
    }

    /// The names of the services that the operator asked for.
    pub fn service_names(&self) -> (r: Vec<String>)
        ensures
            strings_view(r@) == self@.service_names(),
    {
        let whole = self.services.as_str().to_lowercase();
        let parts = str_split_commas(self.services.as_str());
        let mut lowered: Vec<String> = Vec::new();
        let mut i: usize = 0;
        while i < parts.len()
            invariant
                i <= parts.len(),
                lowered.len() == i,
                strings_view(parts@) == comma_parts(self.services@),
                forall|k: int|
                    0 <= k < i ==> (#[trigger] lowered@[k])@ == lowercase_of(
                        trimmed(parts@[k]@),
                    ),
            decreases parts.len() - i,
        {
            lowered.push(str_trim(parts[i].as_str()).as_str().to_lowercase());
            i += 1;
        }
        assert(strings_view(lowered@) =~= comma_parts(self.services@).map_values(
            |p: Seq<char>| lowercase_of(trimmed(p)),
        ));
        service_names_of(whole.as_str(), lowered.as_slice())
    }

    /// The settings that the wizard ends with.
    pub fn run_interactive_init(&self) -> (r: Config)
        ensures
            r@ == wizard_config(self@),
    {
        let names = self.service_names();
        self.config_for(&names)
    }

    /// The settings that the wizard ends with for the services of these
    /// names: each name sets up one service, however often it occurs, with
    /// the region, the key and the endpoint of the answers.
    pub fn config_for(&self, names: &Vec<String>) -> (r: Config)
        ensures
            r@ == wizard_config_for(self@, strings_view(names@)),
    {
        let ghost all = strings_view(names@);
        let ghost w = self@;
        let mut services: Vec<ServiceEntry> = Vec::new();
        let mut i: usize = 0;
        assert(all.take(0) =~= Seq::<Seq<char>>::empty());
        assert(crate::config::entries_view(services@) =~= Seq::<ServiceEntryView>::empty());
        while i < names.len()
            invariant
                i <= names.len(),
                all == strings_view(names@),
                w == self@,
                crate::config::entries_view(services@) == first_occurrences(
                    all.take(i as int),
                ).map_values(|name: Seq<char>| ServiceEntryView { name, config: w.service() }),
            decreases names.len() - i,
        {
            assert(all.take(i + 1).drop_last() =~= all.take(i as int));
            assert(all.take(i + 1).last() == all[i as int]);
            if !contains_name(names, i, names[i].as_str()) {
                let ghost before = crate::config::entries_view(services@);
                let entry = ServiceEntry {
                    name: names[i].clone(),
                    config: ServiceConfig {
                        enabled: true,
                        region: Some(self.region.clone()),
                        api_key: clone_opt(&self.api_key),
                        endpoint: clone_opt(&self.endpoint),
                        test_scenarios: Vec::new(),
                    },
                };
                assert(strings_view(entry.config.test_scenarios@) =~= Seq::<Seq<char>>::empty());
                services.push(entry);
                assert(crate::config::entries_view(services@) =~= before.push(
                    ServiceEntryView { name: all[i as int], config: w.service() },
                ));
                assert(crate::config::entries_view(services@) =~= first_occurrences(
                    all.take(i + 1),
                ).map_values(|name: Seq<char>| ServiceEntryView { name, config: w.service() }));
            }
            i += 1;
        }
        assert(all.take(names.len() as int) =~= all);
        Config {
            global: GlobalConfig {
                cloud: self.cloud,
                timeout_seconds: DEFAULT_TIMEOUT_SECS,
                output_format: OutputFormat::Human,
            },
            auth: AuthConfig {
                default_method: self.auth_method,
                entra: EntraConfig::default(),
                user: UserAuthConfig {
                    tenant_id: clone_opt(&self.tenant_id),
                    client_id: None,
                    managed_identity_client_id: None,
                    bearer_token: None,
                },
            },
            services,
            custom_inputs: CustomInputs::default(),
        }
    }
}

/// The exit status of a validation: a configuration error where there are
/// warnings.
pub fn run_validate(warnings: &Vec<String>) -> (r: ExitCode)
    ensures
        r == if warnings.len() == 0 {
            ExitCode::Success
        } else {
            ExitCode::ConfigError
        },
{
    if warnings.len() == 0 {
        ExitCode::Success
    } else {
        ExitCode::ConfigError
    }
}

/// The error for a listing that is empty because no service has the name
/// that was asked for.
pub fn run_list_scenarios(listing_is_empty: bool, service: Option<&str>) -> (r: Result<
    (),
    AppError,
>)
    ensures
        r is Ok <==> (!listing_is_empty || service is None),
        r matches Err(e) ==> service is Some && e@ == AppErrorView::Config(
            "Unknown service: "@ + service->0@,
        ),
{
    if listing_is_empty {
        match service {
            Some(name) => {
                let mut m = "Unknown service: ".to_owned();
                m.append(name);
                return Err(AppError::Config(m));
            },
            None => {},
        }
    }
    Ok(())
}

pub const WIZARD_TITLE: &'static str = "Azure AI Tools Connect - Configuration Wizard";

pub const WIZARD_SERVICES: &'static str =
    "\n  Available services: speech, translator, language, vision, document_intelligence\n";

pub const WIZARD_TOKEN_NOTE: &'static str =
    "  You can set the bearer token later with --bearer-token or AZURE_BEARER_TOKEN.\n";

/// What the wizard says before its first question.
pub open spec fn wizard_heading() -> Seq<SpanView> {
    seq![
        plain("\n"@),
        tinted(Tint::Cyan, "[*]"@),
        plain(" "@),
        tinted(Tint::Bold, WIZARD_TITLE@),
        plain("\n\n"@),
    ]
}

/// What the wizard says before a question: the note on the bearer token
/// once the manual method was chosen, the list of the services before they
/// are asked for, and the word that all is ready at the end.
pub open spec fn wizard_note(w: WizardView) -> Seq<SpanView> {
    match w.step {
        WizardStep::Endpoint => if w.auth_method == AuthMethod::ManualToken {
            seq![plain(WIZARD_TOKEN_NOTE@)]
        } else {
            Seq::empty()
        },
        WizardStep::Services => seq![plain(WIZARD_SERVICES@)],
        WizardStep::Done => seq![
            plain("\n  "@),
            tinted(Tint::Green, "[+]"@),
            plain(" Configuration ready.\n"@),
        ],
        _ => Seq::empty(),
    }
}

impl Wizard {
    /// What the wizard says before its first question, as pieces of text.
    pub fn heading() -> (r: Vec<Span>)
        ensures
            spans_view(r@) == wizard_heading(),
    {
        let mut b: Vec<Span> = Vec::new();
        push_text(&mut b, "\n");
        push_span(&mut b, Tint::Cyan, "[*]");
        push_text(&mut b, " ");
        push_span(&mut b, Tint::Bold, WIZARD_TITLE);
        push_text(&mut b, "\n\n");
        assert(spans_view(b@) =~= wizard_heading());
        b
    }

    /// What the wizard says before the open question, as pieces of text.
    pub fn note(&self) -> (r: Vec<Span>)
        ensures
            spans_view(r@) == wizard_note(self@),
    {
        let mut b: Vec<Span> = Vec::new();
        match self.step {
            WizardStep::Endpoint => {
                if self.auth_method == AuthMethod::ManualToken {
                    push_text(&mut b, WIZARD_TOKEN_NOTE);
                }
            },
            WizardStep::Services => {
                push_text(&mut b, WIZARD_SERVICES);
            },
            WizardStep::Done => {
                push_text(&mut b, "\n  ");
                push_span(&mut b, Tint::Green, "[+]");
                push_text(&mut b, " Configuration ready.\n");
            },
            _ => {},
        }
        assert(spans_view(b@) =~= wizard_note(self@));
        b
    }
}

/// The lines of the warnings of a validation; nothing where there are
/// none.
pub open spec fn warning_lines(warnings: Seq<Seq<char>>) -> Seq<SpanView>
    decreases warnings.len(),
{
    if warnings.len() == 0 {
        Seq::empty()
    } else {
        warning_lines(warnings.drop_last()) + seq![
            plain("  "@),
            tinted(Tint::Yellow, "!"@),
            plain(" "@),
            plain(warnings.last()),
            plain("\n"@),
        ]
    }
}

/// The section of the warnings of a validation; nothing where there are
/// none.
pub open spec fn warning_section(warnings: Seq<Seq<char>>) -> Seq<SpanView> {
    if warnings.len() == 0 {
        Seq::empty()
    } else {
        seq![plain("\n"@), tinted(Tint::Yellow, "Warnings:"@), plain("\n"@)] + warning_lines(
            warnings,
        )
    }
}

/// The line of one service in the summary of a validation.
pub open spec fn service_line(entry: ServiceEntryView) -> Seq<SpanView> {
    seq![
        plain("    - "@),
        plain(entry.name),
        plain(" "@),
        if entry.config.enabled {
            tinted(Tint::Green, "enabled"@)
        } else {
            tinted(Tint::Dim, "disabled"@)
        },
        plain(" "@),
        if entry.config.api_key is Some {
            tinted(Tint::Green, "(key set)"@)
        } else {
            tinted(Tint::Dim, "(no key)"@)
        },
        plain("\n"@),
    ]
}

/// The lines of the services in the summary of a validation, in order.
pub open spec fn service_lines(services: Seq<ServiceEntryView>) -> Seq<SpanView>
    decreases services.len(),
{
    if services.len() == 0 {
        Seq::empty()
    } else {
        service_lines(services.drop_last()) + service_line(services.last())
    }
}

/// The report of a validation: the word that the file is valid, the
/// warnings, and a summary of the settings.
pub open spec fn validation_lines(
    path: Seq<char>,
    config: ConfigView,
    warnings: Seq<Seq<char>>,
) -> Seq<SpanView> {
    seq![
        tinted(Tint::Green, "[+]"@),
        plain(" Configuration file is valid: "@),
        plain(path),
        plain("\n"@),
    ] + warning_section(warnings) + seq![
        plain("\n"@),
        tinted(Tint::Bold, "Configuration Summary:"@),
        plain("\n  Cloud: "@),
        plain(config.global.cloud.name_text()),
        plain("\n  Timeout: "@),
        plain(decimal(config.global.timeout_seconds as nat)),
        plain("s\n  Auth Method: "@),
        plain(config.auth.default_method.name_text()),
        plain("\n  Services:\n"@),
    ] + service_lines(config.services)
}

fn service_spans(entry: &ServiceEntry) -> (r: Vec<Span>)
    ensures
        spans_view(r@) == service_line(entry@),
{
    let mut b: Vec<Span> = Vec::new();
    push_text(&mut b, "    - ");
    push_text(&mut b, entry.name.as_str());
    push_text(&mut b, " ");
    if entry.config.enabled {
        push_span(&mut b, Tint::Green, "enabled");
    } else {
        push_span(&mut b, Tint::Dim, "disabled");
    }
    push_text(&mut b, " ");
    if entry.config.api_key.is_some() {
        push_span(&mut b, Tint::Green, "(key set)");
    } else {
        push_span(&mut b, Tint::Dim, "(no key)");
    }
    push_text(&mut b, "\n");
    assert(spans_view(b@) =~= service_line(entry@));
    b
}

/// The report of a validation, as pieces of text.
pub fn validation_report(path: &str, config: &Config, warnings: &Vec<String>) -> (r: Vec<Span>)
    ensures
        spans_view(r@) == validation_lines(path@, config@, strings_view(warnings@)),
{
    let ghost w = strings_view(warnings@);
    let ghost services = config@.services;
    let mut b: Vec<Span> = Vec::new();
    push_span(&mut b, Tint::Green, "[+]");
    push_text(&mut b, " Configuration file is valid: ");
    push_text(&mut b, path);
    push_text(&mut b, "\n");
    let ghost first = spans_view(b@);
    assert(first =~= seq![
        tinted(Tint::Green, "[+]"@),
        plain(" Configuration file is valid: "@),
        plain(path@),
        plain("\n"@),
    ]);
    if warnings.len() > 0 {
        push_text(&mut b, "\n");
        push_span(&mut b, Tint::Yellow, "Warnings:");
        push_text(&mut b, "\n");
        let ghost head = spans_view(b@);
        assert(head =~= first + seq![
            plain("\n"@),
            tinted(Tint::Yellow, "Warnings:"@),
            plain("\n"@),
        ]);
        let mut i: usize = 0;
        assert(w.take(0) =~= Seq::<Seq<char>>::empty());
        assert(head + Seq::<SpanView>::empty() =~= head);
        while i < warnings.len()
            invariant
                i <= warnings.len(),
                w == strings_view(warnings@),
                spans_view(b@) == head + warning_lines(w.take(i as int)),
            decreases warnings.len() - i,
        {
            assert(w.take(i + 1).drop_last() =~= w.take(i as int));
            let ghost before = spans_view(b@);
            push_text(&mut b, "  ");
            push_span(&mut b, Tint::Yellow, "!");
            push_text(&mut b, " ");
            push_text(&mut b, warnings[i].as_str());
            push_text(&mut b, "\n");
            assert(spans_view(b@) =~= before + seq![
                plain("  "@),
                tinted(Tint::Yellow, "!"@),
                plain(" "@),
                plain(w[i as int]),
                plain("\n"@),
            ]);
            assert(spans_view(b@) =~= head + warning_lines(w.take(i + 1)));
            i += 1;
        }
        assert(w.take(warnings.len() as int) =~= w);
        assert(spans_view(b@) =~= first + warning_section(w));
    } else {
        assert(first + Seq::<SpanView>::empty() =~= first);
    }
    let ghost second = spans_view(b@);
    push_text(&mut b, "\n");
    push_span(&mut b, Tint::Bold, "Configuration Summary:");
    push_text(&mut b, "\n  Cloud: ");
    push_text(&mut b, config.global.cloud.name());
    push_text(&mut b, "\n  Timeout: ");
    push_text(&mut b, u64_to_decimal(config.global.timeout_seconds).as_str());
    push_text(&mut b, "s\n  Auth Method: ");
    push_text(&mut b, config.auth.default_method.name());
    push_text(&mut b, "\n  Services:\n");
    let ghost head = spans_view(b@);
    assert(head =~= second + seq![
        plain("\n"@),
        tinted(Tint::Bold, "Configuration Summary:"@),
        plain("\n  Cloud: "@),
        plain(config@.global.cloud.name_text()),
        plain("\n  Timeout: "@),
        plain(decimal(config@.global.timeout_seconds as nat)),
        plain("s\n  Auth Method: "@),
        plain(config@.auth.default_method.name_text()),
        plain("\n  Services:\n"@),
    ]);
    let mut j: usize = 0;
    assert(services.take(0) =~= Seq::<ServiceEntryView>::empty());
    assert(head + Seq::<SpanView>::empty() =~= head);
    while j < config.services.len()
        invariant
            j <= config.services.len(),
            services == config@.services,
            spans_view(b@) == head + service_lines(services.take(j as int)),
        decreases config.services.len() - j,
    {
        assert(services.take(j + 1).drop_last() =~= services.take(j as int));
        crate::paint::extend(&mut b, service_spans(&config.services[j]));
        assert(spans_view(b@) =~= head + service_lines(services.take(j + 1)));
        j += 1;
    }
    assert(services.take(config.services.len() as int) =~= services);
    b
}

/// What is shown where the token is to be displayed: a heading, the token,
/// and an empty line. Credentials that are a key show nothing.
pub open spec fn token_lines(credentials: crate::auth::CredentialsView) -> Seq<SpanView> {
    match credentials {
        crate::auth::CredentialsView::BearerToken(token) => seq![
            tinted(Tint::Bold, "Bearer Token:"@),
            plain("\n"@),
            plain(token),
            plain("\n\n"@),
        ],
        crate::auth::CredentialsView::ApiKey(_) => Seq::empty(),
    }
}

/// The display of the token of a test run, as pieces of text.
pub fn show_token(credentials: &crate::auth::Credentials) -> (r: Vec<Span>)
    ensures
        spans_view(r@) == token_lines(credentials@),
{
    let mut b: Vec<Span> = Vec::new();
    match credentials {
        crate::auth::Credentials::BearerToken(token) => {
            push_span(&mut b, Tint::Bold, "Bearer Token:");
            push_text(&mut b, "\n");
            push_text(&mut b, token.as_str());
            push_text(&mut b, "\n\n");
        },
        crate::auth::Credentials::ApiKey(_) => {},
    }
    assert(spans_view(b@) =~= token_lines(credentials@));
    b
}

} // verus!
