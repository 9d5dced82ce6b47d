//! The device-code flow: the operator signs in on another device with a
//! short code while this side polls the token endpoint.
//!
//! The flow is a state machine. `poll_step` takes the state and what was
//! observed (the time that has passed, or the reply to one attempt) and
//! answers with the next state and what to do next. Whoever drives it
//! sleeps, sends and reads the clock; nothing here does.

use crate::auth::{
    field, fields_view, AuthProvider, Credentials, CredentialsView, Field, Request, RequestView,
    AZURE_CLI_CLIENT_ID,
};
use crate::auth::oauth::{url_parse_error, url_parse_error_of};
use crate::config::Cloud;
use crate::error::{AppError, AppErrorView};
use crate::paint::{plain, push_span, push_text, spans_view, tinted, Span, SpanView, Tint};
use crate::text::{decimal, decimal2, opt_view, str_eq, u64_to_decimal, u64_to_decimal2};
use crate::time::Timestamp;
use vstd::prelude::*;
use vstd::string::*;

verus! {

/// Seconds after which a session ends where the server names no lifetime.
pub const DEFAULT_SESSION_TIMEOUT_SECS: u64 = 15 * 60;

/// Lifetime in seconds assumed for a token whose grant names none.
pub const DEFAULT_TOKEN_LIFETIME_SECS: u64 = 3600;

pub const DEVICE_CODE_GRANT: &'static str = "urn:ietf:params:oauth:grant-type:device_code";

pub const MSG_TIMED_OUT: &'static str = "Authentication timed out. Please try again.";

pub const MSG_EXPIRED: &'static str = "Device code expired. Please try again.";

pub const MSG_DECLINED: &'static str = "User declined authorization";

/// Token result with metadata for display and caching.
#[derive(Debug)]
pub struct TokenResult {
    pub access_token: String,
    pub expires_in_secs: u64,
    pub scope: String,
}

pub ghost struct TokenResultView {
    pub access_token: Seq<char>,
    pub expires_in_secs: u64,
    pub scope: Seq<char>,
}

impl View for TokenResult {
    type V = TokenResultView;

    open spec fn view(&self) -> TokenResultView {
        TokenResultView {
            access_token: self.access_token@,
            expires_in_secs: self.expires_in_secs,
            scope: self.scope@,
        }
    }
}

impl Clone for TokenResult {
    fn clone(&self) -> (r: TokenResult)
        ensures
            r@ == self@,
    {
        TokenResult {
            access_token: self.access_token.clone(),
            expires_in_secs: self.expires_in_secs,
            scope: self.scope.clone(),
        }
    }
}

/// What the device-authorization endpoint hands out for one attempt.
#[derive(Debug)]
pub struct DeviceAuthorizationDetails {
    pub device_code: String,
    pub user_code: String,
    pub verification_uri: String,
    /// Lifetime of the codes in seconds; zero where the server named none.
    pub expires_in: u64,
    /// Seconds to wait between two attempts.
    pub interval: u64,
}

/// A token as the token endpoint grants it.
#[derive(Debug)]
pub struct TokenGrant {
    pub access_token: String,
    /// Lifetime in seconds, where the server named one.
    pub expires_in: Option<u64>,
}

pub ghost struct TokenGrantView {
    pub access_token: Seq<char>,
    pub expires_in: Option<u64>,
}

impl View for TokenGrant {
    type V = TokenGrantView;

    open spec fn view(&self) -> TokenGrantView {
        TokenGrantView { access_token: self.access_token@, expires_in: self.expires_in }
    }
}

/// The reply to one attempt at the token endpoint.
#[derive(Debug)]
pub enum PollReply {
    /// The operator has signed in: the token.
    Granted(TokenGrant),
    /// The operator has not finished yet.
    AuthorizationPending,
    /// The server asks for slower polling.
    SlowDown,
    /// The device code is no longer valid.
    ExpiredToken,
    /// The operator refused.
    AccessDenied,
    /// The server named another error; the text shown for it.
    ServerError(String),
    /// The request could not be completed; the transport's message.
    RequestFailed(String),
    /// Anything else that went wrong; its message.
    Other(String),
}

pub ghost enum PollReplyView {
    Granted(TokenGrantView),
    AuthorizationPending,
    SlowDown,
    ExpiredToken,
    AccessDenied,
    ServerError(Seq<char>),
    RequestFailed(Seq<char>),
    Other(Seq<char>),
}

impl View for PollReply {
    type V = PollReplyView;

    open spec fn view(&self) -> PollReplyView {
        match self {
            PollReply::Granted(g) => PollReplyView::Granted(g@),
            PollReply::AuthorizationPending => PollReplyView::AuthorizationPending,
            PollReply::SlowDown => PollReplyView::SlowDown,
            PollReply::ExpiredToken => PollReplyView::ExpiredToken,
            PollReply::AccessDenied => PollReplyView::AccessDenied,
            PollReply::ServerError(m) => PollReplyView::ServerError(m@),
            PollReply::RequestFailed(m) => PollReplyView::RequestFailed(m@),
            PollReply::Other(m) => PollReplyView::Other(m@),
        }
    }
}

impl PollReplyView {
    /// The reply for an error that the server names with `code`; `shown` is
    /// the text under which an error outside the protocol is reported.
    pub open spec fn of_error(code: Seq<char>, shown: Seq<char>) -> PollReplyView {
        if code == "authorization_pending"@ {
            PollReplyView::AuthorizationPending
        } else if code == "slow_down"@ {
            PollReplyView::SlowDown
        } else if code == "expired_token"@ {
            PollReplyView::ExpiredToken
        } else if code == "access_denied"@ {
            PollReplyView::AccessDenied
        } else {
            PollReplyView::ServerError(shown)
        }
    }

    /// Whether the reply keeps the session going.
    pub open spec fn retries(self) -> bool {
        self is AuthorizationPending || self is SlowDown
    }
}

impl PollReply {
    /// The reply for an error that the server names with `code`: the four
    /// codes of the device-code grant have a variant each, any other code is
    /// a server error reported as `shown`.
    pub fn from_error(code: &str, shown: String) -> (r: PollReply)
        ensures
            r@ == PollReplyView::of_error(code@, shown@),
    {
        if str_eq(code, "authorization_pending") {
            PollReply::AuthorizationPending
        } else if str_eq(code, "slow_down") {
            PollReply::SlowDown
        } else if str_eq(code, "expired_token") {
            PollReply::ExpiredToken
        } else if str_eq(code, "access_denied") {
            PollReply::AccessDenied
        } else {
            PollReply::ServerError(shown)
        }
    }
}

/// Where a polling session stands.
#[derive(Debug, Clone, Copy, PartialEq, Eq, Structural)]
pub enum PollPhase {
    /// Before an attempt: the time that has passed is asked for.
    Checking,
    /// An attempt is under way: its reply is asked for.
    Polling,
    /// The session is over.
    Finished,
}

/// The state of a polling session.
#[derive(Debug, Clone, Copy, PartialEq, Eq, Structural)]
pub struct PollSession {
    pub phase: PollPhase,
    /// Seconds to wait before each attempt.
    pub interval_secs: u64,
    /// Seconds after which the session is given up.
    pub timeout_secs: u64,
    /// Whether the progress display is suppressed.
    pub quiet: bool,
}

/// What is observed while a session runs.
#[derive(Debug)]
pub enum PollEvent {
    /// The time that has passed since the session began.
    Elapsed(Timestamp),
    /// The reply to the attempt that was sent last.
    Reply(PollReply),
}

pub ghost enum PollEventView {
    Elapsed(Timestamp),
    Reply(PollReplyView),
}

impl View for PollEvent {
    type V = PollEventView;

    open spec fn view(&self) -> PollEventView {
        match self {
            PollEvent::Elapsed(t) => PollEventView::Elapsed(*t),
            PollEvent::Reply(r) => PollEventView::Reply(r@),
        }
    }
}

/// The countdown shown while waiting.
#[derive(Debug)]
pub struct Progress {
    /// Whole seconds that have passed.
    pub position_secs: u64,
    /// The time left, as minutes and seconds.
    pub message: String,
}

pub ghost struct ProgressView {
    pub position_secs: u64,
    pub message: Seq<char>,
}

/// What to do next.
#[derive(Debug)]
pub enum PollAction {
    /// Show the progress, wait `wait_secs` seconds, send the poll request
    /// and hand back its reply.
    Poll { wait_secs: u64, progress: Option<Progress> },
    /// Wait `wait_secs` seconds, then hand back the time that has passed.
    Check { wait_secs: u64 },
    /// The session ended with a token.
    Succeed(TokenGrant),
    /// The session ended without a token.
    Fail(AppError),
    /// The event does not belong to the phase of the session and was passed
    /// over.
    Ignore,
}

pub ghost enum PollActionView {
    Poll { wait_secs: u64, progress: Option<ProgressView> },
    Check { wait_secs: u64 },
    Succeed(TokenGrantView),
    Fail(AppErrorView),
    Ignore,
}

impl View for PollAction {
    type V = PollActionView;

    open spec fn view(&self) -> PollActionView {
        match self {
            PollAction::Poll { wait_secs, progress } => PollActionView::Poll {
                wait_secs: *wait_secs,
                progress: match progress {
                    Some(p) => Some(
                        ProgressView { position_secs: p.position_secs, message: p.message@ },
                    ),
                    None => None,
                },
            },
            PollAction::Check { wait_secs } => PollActionView::Check { wait_secs: *wait_secs },
            PollAction::Succeed(g) => PollActionView::Succeed(g@),
            PollAction::Fail(e) => PollActionView::Fail(e@),
            PollAction::Ignore => PollActionView::Ignore,
        }
    }
}

impl PollActionView {
    /// The seconds that the action asks to wait.
    pub open spec fn wait(self) -> int {
        match self {
            PollActionView::Poll { wait_secs, .. } => wait_secs as int,
            PollActionView::Check { wait_secs } => wait_secs as int,
            _ => 0,
        }
    }
}

/// The seconds after which a session is given up: the lifetime that the
/// server named, or fifteen minutes where it named none.
pub open spec fn session_timeout(expires_in: u64) -> u64 {
    if expires_in == 0 {
        DEFAULT_SESSION_TIMEOUT_SECS
    } else {
        expires_in
    }
}

/// Whether more than `timeout_secs` seconds have passed.
pub open spec fn timed_out(elapsed: Timestamp, timeout_secs: u64) -> bool {
    elapsed.total_nanos() > timeout_secs * 1_000_000_000
}

/// The whole seconds in an elapsed time, zero where it is negative and the
/// largest number where they do not fit.
pub open spec fn whole_secs(elapsed: Timestamp) -> u64 {
    if elapsed.secs < 0 {
        0
    } else {
        elapsed.secs as u64
    }
}

/// The countdown at an elapsed time.
pub open spec fn progress_at(elapsed: Timestamp, timeout_secs: u64) -> ProgressView {
    let position = whole_secs(elapsed);
    let remaining: nat = if position >= timeout_secs {
        0
    } else {
        (timeout_secs - position) as nat
    };
    ProgressView {
        position_secs: position,
        message: decimal(remaining / 60) + ":"@ + decimal2(remaining % 60) + " remaining"@,
    }
}

/// The error with which a session ends, for a reply that ends it without a
/// token.
pub open spec fn poll_error(reply: PollReplyView) -> AppErrorView {
    match reply {
        PollReplyView::ExpiredToken => AppErrorView::DeviceCodeAuthFailed(MSG_EXPIRED@),
        PollReplyView::AccessDenied => AppErrorView::DeviceCodeAuthFailed(MSG_DECLINED@),
        PollReplyView::ServerError(m) => AppErrorView::DeviceCodeAuthFailed("Server error: "@ + m),
        PollReplyView::RequestFailed(m) => AppErrorView::DeviceCodeAuthFailed(
            "Network error during token request: "@ + m,
        ),
        PollReplyView::Other(m) => AppErrorView::DeviceCodeAuthFailed(
            "Token request failed: "@ + m,
        ),
        _ => AppErrorView::DeviceCodeAuthFailed(Seq::empty()),
    }
}

impl PollSession {
    /// The session with another phase.
    pub open spec fn at(self, phase: PollPhase) -> PollSession {
        PollSession { phase, ..self }
    }

    /// The transition function of the session: the next state and the
    /// action for a state and an event.
    ///
    /// - Before an attempt, an elapsed time beyond the timeout ends the
    ///   session with the timeout error; any other elapsed time asks for one
    ///   interval of waiting and then an attempt.
    /// - After an attempt, a token ends the session with success; "pending"
    ///   asks for the clock at once; "slow down" asks for one more interval
    ///   of waiting before the clock; every other reply ends the session
    ///   with its error.
    /// - An event that does not belong to the phase changes nothing.
    pub open spec fn next(self, event: PollEventView) -> (PollSession, PollActionView) {
        match (self.phase, event) {
            (PollPhase::Checking, PollEventView::Elapsed(elapsed)) => if timed_out(
                elapsed,
                self.timeout_secs,
            ) {
                (
                    self.at(PollPhase::Finished),
                    PollActionView::Fail(AppErrorView::DeviceCodeAuthFailed(MSG_TIMED_OUT@)),
                )
            } else {
                (
                    self.at(PollPhase::Polling),
                    PollActionView::Poll {
                        wait_secs: self.interval_secs,
                        progress: if self.quiet {
                            None
                        } else {
                            Some(progress_at(elapsed, self.timeout_secs))
                        },
                    },
                )
            },
            (PollPhase::Polling, PollEventView::Reply(reply)) => match reply {
                PollReplyView::Granted(g) => (
                    self.at(PollPhase::Finished),
                    PollActionView::Succeed(g),
                ),
                PollReplyView::AuthorizationPending => (
                    self.at(PollPhase::Checking),
                    PollActionView::Check { wait_secs: 0 },
                ),
                PollReplyView::SlowDown => (
                    self.at(PollPhase::Checking),
                    PollActionView::Check { wait_secs: self.interval_secs },
                ),
                _ => (self.at(PollPhase::Finished), PollActionView::Fail(poll_error(reply))),
            },
            _ => (self, PollActionView::Ignore),
        }
    }
}

fn progress(elapsed: &Timestamp, timeout_secs: u64) -> (p: Progress)
    ensures
        (ProgressView { position_secs: p.position_secs, message: p.message@ }) == progress_at(
            *elapsed,
            timeout_secs,
        ),
{
    let position: u64 = if elapsed.secs < 0 {
        0
    } else {
        elapsed.secs as u64
    };
    let remaining: u64 = if position >= timeout_secs {
        0
    } else {
        timeout_secs - position
    };
    let mut message = u64_to_decimal(remaining / 60);
    message.append(":");
    let secs = u64_to_decimal2(remaining % 60);
    message.append(secs.as_str());
    message.append(" remaining");
    Progress { position_secs: position, message }
}

/// The session for the codes that the server handed out: it begins before
/// the first attempt, waits the interval that the server named, and ends
/// after the lifetime of the codes.
pub fn start_polling(details: &DeviceAuthorizationDetails, quiet: bool) -> (s: PollSession)
    ensures
        s == (PollSession {
            phase: PollPhase::Checking,
            interval_secs: details.interval,
            timeout_secs: session_timeout(details.expires_in),
            quiet,
        }),
{
    let timeout_secs = if details.expires_in == 0 {
        DEFAULT_SESSION_TIMEOUT_SECS
    } else {
        details.expires_in
    };
    PollSession { phase: PollPhase::Checking, interval_secs: details.interval, timeout_secs, quiet }
}

/// One step of the session: the next state and what to do next, as `next`
/// defines them.
pub fn poll_step(session: PollSession, event: PollEvent) -> (r: (PollSession, PollAction))
    ensures
        (r.0, r.1@) == session.next(event@),
{
    match session.phase {
        PollPhase::Checking => match event {
            PollEvent::Elapsed(elapsed) => {
                if elapsed.as_nanos() > (session.timeout_secs as i128) * 1_000_000_000 {
                    (
                        PollSession { phase: PollPhase::Finished, ..session },
                        PollAction::Fail(AppError::DeviceCodeAuthFailed(MSG_TIMED_OUT.to_owned())),
                    )
                } else {
                    let shown = if session.quiet {
                        None
                    } else {
                        Some(progress(&elapsed, session.timeout_secs))
                    };
                    (
                        PollSession { phase: PollPhase::Polling, ..session },
                        PollAction::Poll { wait_secs: session.interval_secs, progress: shown },
                    )
                }
            },
            PollEvent::Reply(_) => (session, PollAction::Ignore),
        },
        PollPhase::Polling => match event {
            PollEvent::Reply(reply) => {
                let done = PollSession { phase: PollPhase::Finished, ..session };
                let again = PollSession { phase: PollPhase::Checking, ..session };
                match reply {
                    PollReply::Granted(g) => (done, PollAction::Succeed(g)),
                    PollReply::AuthorizationPending => (again, PollAction::Check { wait_secs: 0 }),
                    PollReply::SlowDown => (
                        again,
                        PollAction::Check { wait_secs: session.interval_secs },
                    ),
                    PollReply::ExpiredToken => (
                        done,
                        PollAction::Fail(AppError::DeviceCodeAuthFailed(MSG_EXPIRED.to_owned())),
                    ),
                    PollReply::AccessDenied => (
                        done,
                        PollAction::Fail(AppError::DeviceCodeAuthFailed(MSG_DECLINED.to_owned())),
                    ),
                    PollReply::ServerError(m) => {
                        let mut t = "Server error: ".to_owned();
                        t.append(m.as_str());
                        (done, PollAction::Fail(AppError::DeviceCodeAuthFailed(t)))
                    },
                    PollReply::RequestFailed(m) => {
                        let mut t = "Network error during token request: ".to_owned();
                        t.append(m.as_str());
                        (done, PollAction::Fail(AppError::DeviceCodeAuthFailed(t)))
                    },
                    PollReply::Other(m) => {
                        let mut t = "Token request failed: ".to_owned();
                        t.append(m.as_str());
                        (done, PollAction::Fail(AppError::DeviceCodeAuthFailed(t)))
                    },
                }
            },
            PollEvent::Elapsed(_) => (session, PollAction::Ignore),
        },
        PollPhase::Finished => (session, PollAction::Ignore),
    }
}

/// One round of a session: the time that had passed before the attempt and
/// the reply to the attempt.
pub ghost struct Round {
    pub elapsed: Timestamp,
    pub reply: PollReplyView,
}

/// What a run of rounds comes to.
pub ghost struct Run {
    /// The state after the last step that was taken.
    pub session: PollSession,
    /// The action of the last step that was taken.
    pub last: PollActionView,
    /// The seconds of waiting that the actions asked for, all together.
    pub waited: int,
    /// The attempts that were sent.
    pub attempts: int,
}

/// Runs a session over rounds that were recorded beforehand: each round
/// feeds its elapsed time and, where an attempt is asked for, its reply. The
/// run stops with the session or with the rounds.
pub open spec fn run(session: PollSession, rounds: Seq<Round>) -> Run
    decreases rounds.len(),
{
    if rounds.len() == 0 {
        Run { session, last: PollActionView::Ignore, waited: 0, attempts: 0 }
    } else {
        let (checked, first) = session.next(PollEventView::Elapsed(rounds.first().elapsed));
        if first is Poll {
            let (replied, second) = checked.next(PollEventView::Reply(rounds.first().reply));
            if second is Check {
                let rest = run(replied, rounds.drop_first());
                if rounds.len() == 1 {
                    Run {
                        session: replied,
                        last: second,
                        waited: first.wait() + second.wait(),
                        attempts: 1,
                    }
                } else {
                    Run {
                        waited: first.wait() + second.wait() + rest.waited,
                        attempts: 1 + rest.attempts,
                        ..rest
                    }
                }
            } else {
                Run { session: replied, last: second, waited: first.wait(), attempts: 1 }
            }
        } else {
            Run { session: checked, last: first, waited: 0, attempts: 0 }
        }
    }
}

/// The rounds whose reply asks for slower polling.
pub open spec fn slow_downs(rounds: Seq<Round>) -> int
    decreases rounds.len(),
{
    if rounds.len() == 0 {
        0
    } else if rounds.first().reply is SlowDown {
        1 + slow_downs(rounds.drop_first())
    } else {
        slow_downs(rounds.drop_first())
    }
}

/// A session in which every attempt but the last is answered with "pending"
/// or "slow down", the last with a token, and no attempt starts after the
/// timeout.
pub open spec fn ends_with_token(session: PollSession, rounds: Seq<Round>) -> bool {
    &&& session.phase == PollPhase::Checking
    &&& rounds.len() > 0
    &&& rounds.last().reply is Granted
    &&& forall|i: int| 0 <= i < rounds.len() ==> !timed_out(
        (#[trigger] rounds[i]).elapsed,
        session.timeout_secs,
    )
    &&& forall|i: int| 0 <= i < rounds.len() - 1 ==> (#[trigger] rounds[i]).reply.retries()
}

/// A session whose attempts are answered with "pending" or "slow down"
/// until one is answered with a token succeeds with that token, and the
/// waiting it asked for is one interval for every attempt and one more for
/// every "slow down". So it waits at least one interval per attempt. The
/// interval itself never changes: "slow down" costs one more wait and
/// leaves the interval of the session as it was.
pub proof fn law_wait_of_successful_session(session: PollSession, rounds: Seq<Round>)
    requires
        ends_with_token(session, rounds),
    ensures
        run(session, rounds).last == PollActionView::Succeed(rounds.last().reply->Granted_0),
        run(session, rounds).session.phase == PollPhase::Finished,
        run(session, rounds).attempts == rounds.len(),
        run(session, rounds).waited == session.interval_secs * (rounds.len() + slow_downs(rounds)),
        run(session, rounds).waited >= session.interval_secs * rounds.len(),
        run(session, rounds).session.interval_secs == session.interval_secs,
        run(session, rounds).session.timeout_secs == session.timeout_secs,
    decreases rounds.len(),
{
    let i = session.interval_secs as int;
    assert(!timed_out(rounds[0].elapsed, session.timeout_secs));
    if rounds.len() == 1 {
        assert(rounds.first() == rounds.last());
        assert(rounds.drop_first().len() == 0);
        assert(slow_downs(rounds.drop_first()) == 0);
        assert(slow_downs(rounds) == 0);
        assert(i * (1 + 0) == i) by (nonlinear_arith);
    } else {
        let rest = rounds.drop_first();
        assert(rounds[0].reply.retries());
        let next_session = session.at(PollPhase::Checking);
        assert(next_session == session);
        assert(rest.last() == rounds.last());
        assert forall|k: int| 0 <= k < rest.len() implies !timed_out(
            (#[trigger] rest[k]).elapsed,
            session.timeout_secs,
        ) by {
            assert(rest[k] == rounds[k + 1]);
        }
        assert forall|k: int| 0 <= k < rest.len() - 1 implies (#[trigger] rest[k]).reply.retries() by {
            assert(rest[k] == rounds[k + 1]);
        }
        law_wait_of_successful_session(session, rest);
        let n = rest.len() as int;
        let s = slow_downs(rest);
        assert(i * (n + s) + i == i * (n + 1 + s)) by (nonlinear_arith);
        assert(i * (n + s) + i + i == i * (n + 1 + (1 + s))) by (nonlinear_arith);
        assert(s >= 0) by {
            lemma_slow_downs_nonnegative(rest);
        }
        assert(i * (n + 1 + s) >= i * (n + 1)) by (nonlinear_arith)
            requires
                i >= 0,
                s >= 0,
                n >= 0,
        ;
        assert(i * (n + 1 + (1 + s)) >= i * (n + 1)) by (nonlinear_arith)
            requires
                i >= 0,
                s >= 0,
                n >= 0,
        ;
    }
}

proof fn lemma_slow_downs_nonnegative(rounds: Seq<Round>)
    ensures
        slow_downs(rounds) >= 0,
    decreases rounds.len(),
{
    if rounds.len() > 0 {
        lemma_slow_downs_nonnegative(rounds.drop_first());
    }
}

/// A session that is asked for its next step after its timeout has passed
/// ends with the timeout error: it asks for no further attempt and hands out
/// no token.
pub proof fn law_timeout_ends_session(session: PollSession, elapsed: Timestamp)
    requires
        session.phase == PollPhase::Checking,
        timed_out(elapsed, session.timeout_secs),
    ensures
        session.next(PollEventView::Elapsed(elapsed)).0.phase == PollPhase::Finished,
        session.next(PollEventView::Elapsed(elapsed)).1 == PollActionView::Fail(
            AppErrorView::DeviceCodeAuthFailed(MSG_TIMED_OUT@),
        ),
{
}

/// A session that is over stays over: whatever is observed afterwards, it
/// asks for nothing and hands out no token.
pub proof fn law_finished_session_is_silent(session: PollSession, event: PollEventView)
    requires
        session.phase == PollPhase::Finished,
    ensures
        session.next(event) == (session, PollActionView::Ignore),
{
}

/// A token is handed out only for a reply that grants it: a session that
/// runs out of time before any grant never succeeds. Stated for every run:
/// where the last action is success, some round within the timeout was
/// answered with that token.
pub proof fn law_token_needs_grant(session: PollSession, rounds: Seq<Round>)
    ensures
        run(session, rounds).last matches PollActionView::Succeed(g) ==> exists|i: int|
            0 <= i < rounds.len() && (#[trigger] rounds[i]).reply == PollReplyView::Granted(g)
                && !timed_out(rounds[i].elapsed, session.timeout_secs),
    decreases rounds.len(),
{
    if rounds.len() > 0 {
        let (checked, first) = session.next(PollEventView::Elapsed(rounds.first().elapsed));
        if first is Poll {
            let (replied, second) = checked.next(PollEventView::Reply(rounds.first().reply));
            if second is Check {
                let rest = rounds.drop_first();
                law_token_needs_grant(replied, rest);
                if let PollActionView::Succeed(g) = run(session, rounds).last {
                    assert(rounds.len() > 1);
                    assert(replied.timeout_secs == session.timeout_secs);
                    let i = choose|i: int|
                        0 <= i < rest.len() && (#[trigger] rest[i]).reply
                            == PollReplyView::Granted(g) && !timed_out(
                            rest[i].elapsed,
                            session.timeout_secs,
                        );
                    assert(rounds[i + 1] == rest[i]);
                }
            } else if second is Succeed {
                assert(rounds[0] == rounds.first());
            }
        }
    }
}

/// Device Code Flow authentication provider. It shows a code for the
/// operator to enter at a login page.
#[derive(Debug)]
pub struct DeviceCodeAuth {
    tenant_id: String,
    client_id: String,
    scope: String,
    cloud: Cloud,
    quiet: bool,
}

pub ghost struct DeviceCodeAuthView {
    pub tenant_id: Seq<char>,
    pub client_id: Seq<char>,
    pub scope: Seq<char>,
    pub cloud: Cloud,
    pub quiet: bool,
}

impl View for DeviceCodeAuth {
    type V = DeviceCodeAuthView;

    closed spec fn view(&self) -> DeviceCodeAuthView {
        DeviceCodeAuthView {
            tenant_id: self.tenant_id@,
            client_id: self.client_id@,
            scope: self.scope@,
            cloud: self.cloud,
            quiet: self.quiet,
        }
    }
}

/// The client that signs in: the given one, or the well-known public client
/// where none is given.
pub open spec fn client_or_default(client_id: Option<Seq<char>>) -> Seq<char> {
    match client_id {
        Some(c) => c,
        None => AZURE_CLI_CLIENT_ID@,
    }
}

/// The error for the first endpoint address that was refused, where each
/// argument is the message with which one address was refused, if it was:
/// that of the device-authorization endpoint, then that of the token
/// endpoint, then that of the authorization endpoint.
pub open spec fn url_failure(
    device: Option<Seq<char>>,
    token: Option<Seq<char>>,
    authorize: Option<Seq<char>>,
) -> Option<AppErrorView> {
    if device is Some {
        Some(AppErrorView::DeviceCodeAuthFailed("Invalid device auth URL: "@ + device->0))
    } else if token is Some {
        Some(AppErrorView::DeviceCodeAuthFailed("Invalid token URL: "@ + token->0))
    } else if authorize is Some {
        Some(AppErrorView::DeviceCodeAuthFailed("Invalid auth URL: "@ + authorize->0))
    } else {
        None
    }
}

/// The headers of every request of the device-code flow, as an OAuth2
/// client sends them: the answer is asked for as JSON, and the body is a
/// form.
pub open spec fn endpoint_headers() -> Seq<(Seq<char>, Seq<char>)> {
    seq![
        ("Accept"@, "application/json"@),
        ("Content-Type"@, "application/x-www-form-urlencoded"@),
    ]
}

impl DeviceCodeAuthView {
    /// The address of one of the tenant's OAuth2 endpoints.
    pub open spec fn endpoint(self, name: Seq<char>) -> Seq<char> {
        self.cloud.login_endpoint_text() + "/"@ + self.tenant_id + "/oauth2/v2.0/"@ + name
    }

    /// The first of the three endpoint addresses that is no URL, with the
    /// error that reports it, if there is one: the device-authorization
    /// endpoint, then the token endpoint, then the authorization endpoint.
    pub open spec fn url_error(self) -> Option<AppErrorView> {
        url_failure(
            url_parse_error_of(self.endpoint("devicecode"@)),
            url_parse_error_of(self.endpoint("token"@)),
            url_parse_error_of(self.endpoint("authorize"@)),
        )
    }

    /// The request that asks for the codes.
    pub open spec fn authorization_request(self) -> RequestView {
        RequestView {
            url: self.endpoint("devicecode"@),
            headers: endpoint_headers(),
            form: seq![("scope"@, self.scope), ("client_id"@, self.client_id)],
        }
    }

    /// The request of one attempt at the token endpoint.
    pub open spec fn poll_request(self, device_code: Seq<char>) -> RequestView {
        RequestView {
            url: self.endpoint("token"@),
            headers: endpoint_headers(),
            form: seq![
                ("grant_type"@, DEVICE_CODE_GRANT@),
                ("device_code"@, device_code),
                ("client_id"@, self.client_id),
            ],
        }
    }

    /// The result for a grant: its token, its lifetime or an hour where it
    /// names none, and the scope that was asked for.
    pub open spec fn result(self, grant: TokenGrantView) -> TokenResultView {
        TokenResultView {
            access_token: grant.access_token,
            expires_in_secs: match grant.expires_in {
                Some(s) => s,
                None => DEFAULT_TOKEN_LIFETIME_SECS,
            },
            scope: self.scope,
        }
    }
}

/// What came back for the request that asks for the codes.
#[derive(Debug)]
pub enum DeviceAuthorizationReply {
    /// The request failed in some way; the message that describes how.
    Failed(String),
    /// The server handed out codes.
    Details(DeviceAuthorizationDetails),
}

impl DeviceCodeAuth {
    /// The provider for a tenant in a cloud. Without a client ID the
    /// well-known public client signs in. The scope is that of the cognitive
    /// services in the cloud; progress is shown.
    pub fn new(tenant_id: String, client_id: Option<String>, cloud: &Cloud) -> (r: Result<
        DeviceCodeAuth,
        AppError,
    >)
        ensures
            r matches Ok(a) && a@ == (DeviceCodeAuthView {
                tenant_id: tenant_id@,
                client_id: client_or_default(opt_view(client_id)),
                scope: cloud.scope_text(),
                cloud: *cloud,
                quiet: false,
            }),
    {
        let client_id = match client_id {
            Some(c) => c,
            None => AZURE_CLI_CLIENT_ID.to_owned(),
        };
        Ok(
            DeviceCodeAuth {
                tenant_id,
                client_id,
                scope: cloud.cognitive_scope().to_owned(),
                cloud: *cloud,
                quiet: false,
            },
        )
    }

    /// Set quiet mode (suppresses progress indicators).
    pub fn with_quiet(self, quiet: bool) -> (r: DeviceCodeAuth)
        ensures
            r@ == (DeviceCodeAuthView { quiet, ..self@ }),
    {
        DeviceCodeAuth { quiet, ..self }
    }

    pub fn tenant_id(&self) -> (r: &str)
        ensures
            r@ == self@.tenant_id,
    {
        self.tenant_id.as_str()
    }

    pub fn client_id(&self) -> (r: &str)
        ensures
            r@ == self@.client_id,
    {
        self.client_id.as_str()
    }

    pub fn scope(&self) -> (r: &str)
        ensures
            r@ == self@.scope,
    {
        self.scope.as_str()
    }

    pub fn cloud(&self) -> (r: Cloud)
        ensures
            r == self@.cloud,
    {
        self.cloud
    }

    pub fn quiet(&self) -> (r: bool)
        ensures
            r == self@.quiet,
    {
        self.quiet
    }

    fn endpoint(&self, name: &str) -> (r: String)
        ensures
            r@ == self@.endpoint(name@),
    {
        let mut r = self.cloud.login_endpoint().to_owned();
        r.append("/");
        r.append(self.tenant_id.as_str());
        r.append("/oauth2/v2.0/");
        r.append(name);
        r
    }

    /// The first step of the flow: the request that asks the
    /// device-authorization endpoint for the codes, with the client and the
    /// scope as form fields. Where one of the tenant's endpoint addresses is
    /// no URL, the error names the first that is not.
    pub fn fetch_token(&self) -> (r: Result<Request, AppError>)
        ensures
            match r {
                Ok(request) => self@.url_error() is None && request@
                    == self@.authorization_request(),
                Err(e) => self@.url_error() == Some(e@),
            },
    {
        let device = url_parse_error(self.endpoint("devicecode").as_str());
        let token = url_parse_error(self.endpoint("token").as_str());
        let authorize = url_parse_error(self.endpoint("authorize").as_str());
        match DeviceCodeAuth::url_failure(device, token, authorize) {
            Some(e) => Err(e),
            None => Ok(self.authorization_request()),
        }
    }

    /// The error for the first endpoint address that was refused, where
    /// each argument is the message with which one address was refused, if
    /// it was: that of the device-authorization endpoint, then that of the
    /// token endpoint, then that of the authorization endpoint.
    pub fn url_failure(
        device: Option<String>,
        token: Option<String>,
        authorize: Option<String>,
    ) -> (r: Option<AppError>)
        ensures
            match r {
                Some(e) => url_failure(opt_view(device), opt_view(token), opt_view(authorize))
                    == Some(e@),
                None => url_failure(opt_view(device), opt_view(token), opt_view(authorize))
                    is None,
            },
    {
        if let Some(e) = device {
            let mut t = "Invalid device auth URL: ".to_owned();
            t.append(e.as_str());
            return Some(AppError::DeviceCodeAuthFailed(t));
        }
        if let Some(e) = token {
            let mut t = "Invalid token URL: ".to_owned();
            t.append(e.as_str());
            return Some(AppError::DeviceCodeAuthFailed(t));
        }
        if let Some(e) = authorize {
            let mut t = "Invalid auth URL: ".to_owned();
            t.append(e.as_str());
            return Some(AppError::DeviceCodeAuthFailed(t));
        }
        None
    }

    /// The headers of every request of the flow: JSON is asked for, and the
    /// body is a form.
    pub fn headers() -> (r: Vec<Field>)
        ensures
            fields_view(r@) == endpoint_headers(),
    {
        let mut headers: Vec<Field> = Vec::new();
        headers.push(field("Accept", "application/json"));
        headers.push(field("Content-Type", "application/x-www-form-urlencoded"));
        assert(fields_view(headers@) =~= endpoint_headers());
        headers
    }

    /// The request that asks the device-authorization endpoint for the
    /// codes: a POST with the scope and the client as form fields.
    pub fn authorization_request(&self) -> (r: Request)
        ensures
            r@ == self@.authorization_request(),
    {
        let mut form: Vec<Field> = Vec::new();
        form.push(field("scope", self.scope.as_str()));
        form.push(field("client_id", self.client_id.as_str()));
        let request = Request {
            url: self.endpoint("devicecode"),
            headers: DeviceCodeAuth::headers(),
            form,
        };
        assert(request@.form =~= self@.authorization_request().form);
        assert(request@.headers =~= self@.authorization_request().headers);
        request
    }

    /// Judges the answer to the request for the codes: a failure ends the
    /// flow at once, with no second try.
    pub fn authorization_details(reply: DeviceAuthorizationReply) -> (r: Result<
        DeviceAuthorizationDetails,
        AppError,
    >)
        ensures
            match reply {
                DeviceAuthorizationReply::Failed(m) => r matches Err(e) && e@
                    == AppErrorView::DeviceCodeAuthFailed("Device code request failed: "@ + m@),
                DeviceAuthorizationReply::Details(d) => r matches Ok(x) && x == d,
            },
    {
        match reply {
            DeviceAuthorizationReply::Failed(m) => {
                let mut t = "Device code request failed: ".to_owned();
                t.append(m.as_str());
                Err(AppError::DeviceCodeAuthFailed(t))
            },
            DeviceAuthorizationReply::Details(d) => Ok(d),
        }
    }

    /// The polling session for the codes that the server handed out.
    pub fn poll_for_token(&self, details: &DeviceAuthorizationDetails) -> (s: PollSession)
        ensures
            s == (PollSession {
                phase: PollPhase::Checking,
                interval_secs: details.interval,
                timeout_secs: session_timeout(details.expires_in),
                quiet: self@.quiet,
            }),
    {
        start_polling(details, self.quiet)
    }

    /// The request of one attempt: a POST to the token endpoint with the
    /// device-code grant, the device code and the client.
    pub fn poll_request(&self, details: &DeviceAuthorizationDetails) -> (r: Request)
        ensures
            r@ == self@.poll_request(details.device_code@),
    {
        let mut form: Vec<Field> = Vec::new();
        form.push(field("grant_type", DEVICE_CODE_GRANT));
        form.push(field("device_code", details.device_code.as_str()));
        form.push(field("client_id", self.client_id.as_str()));
        let r = Request { url: self.endpoint("token"), headers: DeviceCodeAuth::headers(), form };
        assert(r@.form =~= self@.poll_request(details.device_code@).form);
        assert(r@.headers =~= self@.poll_request(details.device_code@).headers);
        r
    }

    /// The result of the flow for the token that was granted.
    pub fn authenticate(&self, grant: TokenGrant) -> (r: TokenResult)
        ensures
            r@ == self@.result(grant@),
    {
        let expires_in_secs = match grant.expires_in {
            Some(s) => s,
            None => DEFAULT_TOKEN_LIFETIME_SECS,
        };
        TokenResult { access_token: grant.access_token, expires_in_secs, scope: self.scope.clone() }
    }

    /// The credentials for the token that was granted.
    pub fn get_credentials(&self, grant: TokenGrant) -> (r: Credentials)
        ensures
            r@ == CredentialsView::BearerToken(grant@.access_token),
    {
        Credentials::BearerToken(grant.access_token)
    }
}

impl AuthProvider for DeviceCodeAuth {
    fn method_name(&self) -> (r: &'static str)
        ensures
            r@ == "Device Code Flow"@,
    {
        "Device Code Flow"
    }
}

pub const NOTICE_RULE: &'static str =
    "======================================================================";

/// What the operator is told to do: open the address, enter the code.
pub open spec fn instructions(verification_uri: Seq<char>, user_code: Seq<char>) -> Seq<SpanView> {
    seq![
        plain("\n"@),
        tinted(Tint::Cyan, NOTICE_RULE@),
        plain("\n  "@),
        tinted(Tint::Cyan, "[*]"@),
        plain(" "@),
        tinted(Tint::Bold, "Azure Authentication Required"@),
        plain("\n"@),
        tinted(Tint::Cyan, NOTICE_RULE@),
        plain("\n\n  "@),
        tinted(Tint::Bold, "1."@),
        plain(" Open this URL in your browser:\n     "@),
        tinted(Tint::Underlined, verification_uri),
        plain("\n\n  "@),
        tinted(Tint::Bold, "2."@),
        plain(" Enter this code:\n     "@),
        tinted(Tint::YellowBold, user_code),
        plain("\n\n"@),
        tinted(Tint::Cyan, NOTICE_RULE@),
        plain("\n\n"@),
    ]
}

/// What the operator is told when signing in has succeeded.
pub open spec fn success_lines() -> Seq<SpanView> {
    seq![
        plain("  "@),
        tinted(Tint::Green, "[+]"@),
        plain(" "@),
        tinted(Tint::GreenBold, "Authentication successful!"@),
        plain("\n\n"@),
    ]
}

/// The notice that signing in has succeeded, as pieces of text.
pub fn success_notice() -> (r: Vec<Span>)
    ensures
        spans_view(r@) == success_lines(),
{
    let mut b: Vec<Span> = Vec::new();
    push_text(&mut b, "  ");
    push_span(&mut b, Tint::Green, "[+]");
    push_text(&mut b, " ");
    push_span(&mut b, Tint::GreenBold, "Authentication successful!");
    push_text(&mut b, "\n\n");
    assert(spans_view(b@) =~= success_lines());
    b
}

impl DeviceCodeAuth {
    /// The instructions for the operator, as pieces of text: the address to
    /// open and the code to enter. They are for reading only; the flow does
    /// not depend on them.
    pub fn display_instructions(&self, details: &DeviceAuthorizationDetails) -> (r: Vec<Span>)
        ensures
            spans_view(r@) == instructions(details.verification_uri@, details.user_code@),
    {
        let mut b: Vec<Span> = Vec::new();
        push_text(&mut b, "\n");
        push_span(&mut b, Tint::Cyan, NOTICE_RULE);
        push_text(&mut b, "\n  ");
        push_span(&mut b, Tint::Cyan, "[*]");
        push_text(&mut b, " ");
        push_span(&mut b, Tint::Bold, "Azure Authentication Required");
        push_text(&mut b, "\n");
        push_span(&mut b, Tint::Cyan, NOTICE_RULE);
        push_text(&mut b, "\n\n  ");
        push_span(&mut b, Tint::Bold, "1.");
        push_text(&mut b, " Open this URL in your browser:\n     ");
        push_span(&mut b, Tint::Underlined, details.verification_uri.as_str());
        push_text(&mut b, "\n\n  ");
        push_span(&mut b, Tint::Bold, "2.");
        push_text(&mut b, " Enter this code:\n     ");
        push_span(&mut b, Tint::YellowBold, details.user_code.as_str());
        push_text(&mut b, "\n\n");
        push_span(&mut b, Tint::Cyan, NOTICE_RULE);
        push_text(&mut b, "\n\n");
        assert(spans_view(b@) =~= instructions(details.verification_uri@, details.user_code@));
        b
    }
}

} // verus!
