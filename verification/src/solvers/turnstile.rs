//! Decisions of the Turnstile solver.
//!
//! The solver serves a page hosting the widget *as* the target URL by
//! intercepting the document request, then polls the page for the token.
use vstd::prelude::*;
use vstd::string::*;
use std::time::Duration;
use crate::duration::{duration_from_millis, duration_from_secs, millis, secs};
use crate::error::PoolError;
use crate::json::{Json, JsonValue, entries_model, get_opt, get_str, items_model, push_entry};
use crate::browser::cdp::str_opt_view;
use crate::solvers::error::{SolverError, SolverFault, prefixed};
use crate::browser::pool::BrowserContext;
use crate::solvers::utils::{
    StubPage, StubPageBuilder, no_session_fault, session_of, sitekey_problem, stub_page,
    url_problem, validate_sitekey, validate_url,
};
use crate::text::str_eq;
use vstd::utf8::*;

verus! {

/// How long to wait for a token, and how often to look for it.
pub struct TurnstileSolver {
    pub timeout_duration: Duration,
    pub poll_interval: Duration,
}

impl TurnstileSolver {
    /// Waits up to 29 seconds, looking every 500 milliseconds.
    pub fn new() -> (r: TurnstileSolver)
        ensures
            r.timeout_duration == duration_from_secs(29),
            r.poll_interval == duration_from_millis(500),
    {
        TurnstileSolver { timeout_duration: secs(29), poll_interval: millis(500) }
    }

    pub fn with_timeout(self, duration: Duration) -> (r: TurnstileSolver)
        ensures
            r.timeout_duration == duration,
            r.poll_interval == self.poll_interval,
    {
        TurnstileSolver { timeout_duration: duration, ..self }
    }

    pub fn with_poll_interval(self, duration: Duration) -> (r: TurnstileSolver)
        ensures
            r.timeout_duration == self.timeout_duration,
            r.poll_interval == duration,
    {
        TurnstileSolver { poll_interval: duration, ..self }
    }
}

impl Default for TurnstileSolver {
    fn default() -> (r: TurnstileSolver)
        ensures
            r.timeout_duration == duration_from_secs(29),
            r.poll_interval == duration_from_millis(500),
    {
        TurnstileSolver::new()
    }
}

/// What to solve: the page URL, its sitekey, and the optional `cData` and `action`.
pub struct TurnstileParams {
    pub url: String,
    pub sitekey: String,
    pub cdata: Option<String>,
    pub action: Option<String>,
}

/// The script that reads the widget's token and error from the page.
pub const TOKEN_POLL_SCRIPT: &'static str = "({ token: window.getTurnstileToken ? window.getTurnstileToken() : null, error: window.getTurnstileError ? window.getTurnstileError() : null })";

/// The page to serve at `url`, or why the request is refused: the URL is
/// checked first, then the sitekey.
pub open spec fn stub_for_spec(
    url: Seq<char>,
    url_bytes: nat,
    sitekey: Seq<char>,
    sitekey_bytes: nat,
    cdata: Option<Seq<char>>,
    action: Option<Seq<char>>,
) -> Result<Seq<char>, SolverFault> {
    match url_problem(url) {
        Some(e) => Err(e),
        None => match sitekey_problem(sitekey, sitekey_bytes) {
            Some(e) => Err(e),
            None => Ok(stub_page(StubPage { sitekey, url, cdata, action })),
        },
    }
}

pub open spec fn solver_text_view(r: Result<String, SolverError>) -> Result<Seq<char>, SolverFault> {
    match r {
        Ok(s) => Ok(s@),
        Err(e) => Err(e@),
    }
}

/// Checks a request and renders the page that hosts its widget.
pub fn stub_for(url: &str, sitekey: &str, cdata: Option<&str>, action: Option<&str>) -> (r: Result<
    String,
    SolverError,
>)
    ensures
        solver_text_view(r) == stub_for_spec(
            url@,
            encode_utf8(url@).len(),
            sitekey@,
            encode_utf8(sitekey@).len(),
            str_opt_view(cdata),
            str_opt_view(action),
        ),
{
    validate_url(url)?;
    validate_sitekey(sitekey)?;
    let mut stub = StubPageBuilder::new(String::from_str(sitekey), String::from_str(url));
    if let Some(c) = cdata {
        stub = stub.with_cdata(String::from_str(c));
    }
    if let Some(a) = action {
        stub = stub.with_action(String::from_str(a));
    }
    Ok(stub.build())
}

/// The checks a Turnstile solve makes before it sends any DevTools command, in
/// order: the URL, the sitekey, then the slot's session. On success, the page to
/// serve and the session to drive.
pub fn turnstile_start<'a, S>(
    context: &'a BrowserContext<S>,
    url: &str,
    sitekey: &str,
    cdata: Option<&str>,
    action: Option<&str>,
) -> (r: Result<(String, &'a S), SolverError>)
    ensures
        ({
            let checked = stub_for_spec(
                url@,
                encode_utf8(url@).len(),
                sitekey@,
                encode_utf8(sitekey@).len(),
                str_opt_view(cdata),
                str_opt_view(action),
            );
            match r {
                Ok((page, session)) => checked == Ok::<Seq<char>, SolverFault>(page@)
                    && context.cdp_session == Some(*session),
                Err(e) => match checked {
                    Err(f) => e@ == f,
                    Ok(_) => context.cdp_session is None && e@ == no_session_fault(),
                },
            }
        }),
{
    let page = stub_for(url, sitekey, cdata, action)?;
    let session = session_of(context)?;
    Ok((page, session))
}

/// The `Fetch.enable` patterns that pause only the request for `url`, before it is sent.
pub open spec fn fetch_patterns_spec(url: Seq<char>) -> Json {
    Json::Array(
        seq![
            Json::Object(
                seq![("urlPattern"@, Json::Str(url)), ("requestStage"@, Json::Str("Request"@))],
            ),
        ],
    )
}

pub fn fetch_patterns(url: &str) -> (r: JsonValue)
    ensures
        r@ == fetch_patterns_spec(url@),
{
    let mut entries: Vec<(String, JsonValue)> = Vec::new();
    push_entry(&mut entries, "urlPattern", JsonValue::string(url));
    push_entry(&mut entries, "requestStage", JsonValue::string("Request"));
    let ghost m = entries_model(entries@);
    assert(m =~= seq![("urlPattern"@, Json::Str(url@)), ("requestStage"@, Json::Str("Request"@))]);
    let pattern = JsonValue::object(entries);
    let mut items: Vec<JsonValue> = Vec::new();
    items.push(pattern);
    assert(items_model(items@) =~= seq![Json::Object(m)]);
    JsonValue::array(items)
}

/// What to do with a protocol event while the page is being served.
pub enum InterceptAction {
    /// Not a paused request of this page.
    Skip,
    /// Answer the paused document request with the local page.
    Fulfill(String),
    /// Let the paused request through.
    Continue(String),
}

pub enum InterceptView {
    Skip,
    Fulfill(Seq<char>),
    Continue(Seq<char>),
}

impl View for InterceptAction {
    type V = InterceptView;

    open spec fn view(&self) -> InterceptView {
        match self {
            InterceptAction::Skip => InterceptView::Skip,
            InterceptAction::Fulfill(s) => InterceptView::Fulfill(s@),
            InterceptAction::Continue(s) => InterceptView::Continue(s@),
        }
    }
}

/// Only `Fetch.requestPaused` events of this page's session (compared as given,
/// so a browser-level session expects none) are handled: the document request
/// gets the local page, every other request goes through.
pub open spec fn intercept_spec(event: Json, session: Option<Seq<char>>) -> InterceptView {
    if get_str(Some(event), "method"@) != Some("Fetch.requestPaused"@) {
        InterceptView::Skip
    } else if session != get_str(Some(event), "sessionId"@) {
        InterceptView::Skip
    } else {
        match event.get("params"@) {
            None => InterceptView::Skip,
            Some(params) => match get_str(Some(params), "requestId"@) {
                None => InterceptView::Skip,
                Some(id) => if get_str(Some(params), "resourceType"@) == Some("Document"@) {
                    InterceptView::Fulfill(id)
                } else {
                    InterceptView::Continue(id)
                },
            },
        }
    }
}

fn member_str<'a>(v: &'a JsonValue, key: &str) -> (r: Option<&'a str>)
    ensures
        match r {
            Some(s) => get_str(Some(v@), key@) == Some(s@),
            None => get_str(Some(v@), key@) is None,
        },
{
    match v.get(key) {
        Some(m) => m.as_str(),
        None => None,
    }
}

fn same_opt_str(a: Option<&str>, b: Option<&str>) -> (r: bool)
    ensures
        r == (str_opt_view(a) == str_opt_view(b)),
{
    match (a, b) {
        (Some(x), Some(y)) => str_eq(x, y),
        (None, None) => true,
        _ => false,
    }
}

/// Decides what to do with an event.
pub fn intercept_action(event: &JsonValue, session: Option<&str>) -> (r: InterceptAction)
    ensures
        r@ == intercept_spec(event@, str_opt_view(session)),
{
    let method = member_str(event, "method");
    let paused = match method {
        Some(m) => str_eq(m, "Fetch.requestPaused"),
        None => false,
    };
    if !paused {
        return InterceptAction::Skip;
    }
    if !same_opt_str(session, member_str(event, "sessionId")) {
        return InterceptAction::Skip;
    }
    let params = match event.get("params") {
        Some(p) => p,
        None => {
            return InterceptAction::Skip;
        },
    };
    let request_id = match member_str(params, "requestId") {
        Some(id) => id,
        None => {
            return InterceptAction::Skip;
        },
    };
    let is_document = match member_str(params, "resourceType") {
        Some(t) => str_eq(t, "Document"),
        None => false,
    };
    if is_document {
        InterceptAction::Fulfill(String::from_str(request_id))
    } else {
        InterceptAction::Continue(String::from_str(request_id))
    }
}

/// One look at the page: a non-empty token ends the wait successfully, a widget
/// error ends it with `ChallengeFailed`, and otherwise the wait ends with
/// `Timeout` once the deadline has passed, or goes on (`Ok(None)`).
pub open spec fn token_poll_spec(response: Json, deadline_passed: bool) -> Result<Option<Seq<char>>, SolverFault> {
    let value = get_opt(response.get("result"@), "value"@);
    let token = get_str(value, "token"@);
    let error = get_str(value, "error"@);
    if token is Some && token->0.len() > 0 {
        Ok(Some(token->0))
    } else if error is Some {
        Err(SolverFault::ChallengeFailed("Turnstile error "@ + error->0))
    } else if deadline_passed {
        Err(SolverFault::Timeout)
    } else {
        Ok(None)
    }
}

pub open spec fn poll_view(r: Result<Option<String>, SolverError>) -> Result<Option<Seq<char>>, SolverFault> {
    match r {
        Ok(Some(s)) => Ok(Some(s@)),
        Ok(None) => Ok(None),
        Err(e) => Err(e@),
    }
}

/// Reads one evaluation of [`TOKEN_POLL_SCRIPT`].
pub fn token_poll(response: &JsonValue, deadline_passed: bool) -> (r: Result<Option<String>, SolverError>)
    ensures
        poll_view(r) == token_poll_spec(response@, deadline_passed),
{
    let value = match response.get("result") {
        Some(result) => result.get("value"),
        None => None,
    };
    if let Some(value) = value {
        if let Some(token) = member_str(value, "token") {
            if token.unicode_len() > 0 {
                return Ok(Some(String::from_str(token)));
            }
        }
        if let Some(error) = member_str(value, "error") {
            return Err(SolverError::ChallengeFailed(prefixed("Turnstile error ", error)));
        }
    }
    if deadline_passed {
        Err(SolverError::Timeout)
    } else {
        Ok(None)
    }
}

/// A DevTools failure during a solve, reported as a CDP error after `context`.
pub fn cdp_failure(context: &str, error: &PoolError) -> (r: SolverError)
    ensures
        r@ matches SolverFault::CdpError(m) && m.len() >= context@.len()
            && m.subrange(0, context@.len() as int) == context@ && (!(error@ is IoError
            || error@ is JsonError) ==> m == context@ + error@.lead() + error@.detail()),
{
    let text = error.message();
    let m = prefixed(context, text.as_str());
    assert(m@.subrange(0, context@.len() as int) =~= context@);
    SolverError::CdpError(m)
}

/// Where a Turnstile solve stands once its request has been checked.
pub enum SolveStage {
    /// Asking the browser to pause the document request.
    EnablingFetch,
    /// Interception on; navigating to the target URL.
    Navigating,
    /// Interception on; waiting for the page to load.
    Loading,
    /// Interception on; waiting for the token.
    WaitingToken,
    /// Stopping interception, to end with the outcome afterwards.
    Stopping(Result<String, SolverError>),
    /// Ended.
    Finished,
}

/// What the last action gave.
pub enum SolveEvent {
    FetchEnabled(Result<(), SolverError>),
    Navigated(Result<(), SolverError>),
    Loaded(Result<(), SolverError>),
    TokenWaitEnded(Result<String, SolverError>),
    Stopped,
}

/// What to do next.
pub enum SolveAction {
    /// Navigate to the target URL.
    Navigate,
    /// Wait for the page to load, at most this long.
    WaitLoad(Duration),
    /// Poll for the token.
    WaitToken,
    /// Stop serving the page: end the interception and disable `Fetch`.
    StopInterception,
    /// End the solve with this outcome.
    Finish(Result<String, SolverError>),
}

/// The event is the result of the action that led to the stage.
pub open spec fn solve_event_fits(stage: SolveStage, event: SolveEvent) -> bool {
    match (stage, event) {
        (SolveStage::EnablingFetch, SolveEvent::FetchEnabled(_)) => true,
        (SolveStage::Navigating, SolveEvent::Navigated(_)) => true,
        (SolveStage::Loading, SolveEvent::Loaded(_)) => true,
        (SolveStage::WaitingToken, SolveEvent::TokenWaitEnded(_)) => true,
        (SolveStage::Stopping(_), SolveEvent::Stopped) => true,
        _ => false,
    }
}

/// The next stage and action. Once interception is on, every outcome passes
/// through stopping it; a failure to turn it on ends the solve at once.
pub open spec fn solve_next(stage: SolveStage, event: SolveEvent, timeout: Duration) -> (
    SolveStage,
    SolveAction,
) {
    match (stage, event) {
        (SolveStage::EnablingFetch, SolveEvent::FetchEnabled(Err(e))) => (
            SolveStage::Finished,
            SolveAction::Finish(Err(e)),
        ),
        (SolveStage::EnablingFetch, SolveEvent::FetchEnabled(Ok(_))) => (
            SolveStage::Navigating,
            SolveAction::Navigate,
        ),
        (SolveStage::Navigating, SolveEvent::Navigated(Err(e))) => (
            SolveStage::Stopping(Err(e)),
            SolveAction::StopInterception,
        ),
        (SolveStage::Navigating, SolveEvent::Navigated(Ok(_))) => (
            SolveStage::Loading,
            SolveAction::WaitLoad(timeout),
        ),
        (SolveStage::Loading, SolveEvent::Loaded(Err(e))) => (
            SolveStage::Stopping(Err(e)),
            SolveAction::StopInterception,
        ),
        (SolveStage::Loading, SolveEvent::Loaded(Ok(_))) => (
            SolveStage::WaitingToken,
            SolveAction::WaitToken,
        ),
        (SolveStage::WaitingToken, SolveEvent::TokenWaitEnded(r)) => (
            SolveStage::Stopping(r),
            SolveAction::StopInterception,
        ),
        (SolveStage::Stopping(r), SolveEvent::Stopped) => (SolveStage::Finished, SolveAction::Finish(r)),
        (st, _) => (st, SolveAction::StopInterception),
    }
}

impl TurnstileSolver {
    /// One step of a solve, from the result of the last action. The page load
    /// is awaited for at most the solver's timeout.
    pub fn solve_step(&self, stage: SolveStage, event: SolveEvent) -> (r: (SolveStage, SolveAction))
        requires
            solve_event_fits(stage, event),
        ensures
            r == solve_next(stage, event, self.timeout_duration),
    {
        match (stage, event) {
            (SolveStage::EnablingFetch, SolveEvent::FetchEnabled(Err(e))) => (
                SolveStage::Finished,
                SolveAction::Finish(Err(e)),
            ),
            (SolveStage::EnablingFetch, SolveEvent::FetchEnabled(Ok(_))) => (
                SolveStage::Navigating,
                SolveAction::Navigate,
            ),
            (SolveStage::Navigating, SolveEvent::Navigated(Err(e))) => (
                SolveStage::Stopping(Err(e)),
                SolveAction::StopInterception,
            ),
            (SolveStage::Navigating, SolveEvent::Navigated(Ok(_))) => (
                SolveStage::Loading,
                SolveAction::WaitLoad(self.timeout_duration),
            ),
            (SolveStage::Loading, SolveEvent::Loaded(Err(e))) => (
                SolveStage::Stopping(Err(e)),
                SolveAction::StopInterception,
            ),
            (SolveStage::Loading, SolveEvent::Loaded(Ok(_))) => (
                SolveStage::WaitingToken,
                SolveAction::WaitToken,
            ),
            (SolveStage::WaitingToken, SolveEvent::TokenWaitEnded(r)) => (
                SolveStage::Stopping(r),
                SolveAction::StopInterception,
            ),
            (SolveStage::Stopping(r), SolveEvent::Stopped) => (
                SolveStage::Finished,
                SolveAction::Finish(r),
            ),
            (st, _) => (st, SolveAction::StopInterception),
        }
    }
}

/// Every event of `events` is the result of the action before it, starting from `stage`.
pub open spec fn solve_run_fits(stage: SolveStage, events: Seq<SolveEvent>, timeout: Duration) -> bool
    decreases events.len(),
{
    events.len() == 0 || (solve_event_fits(stage, events[0]) && solve_run_fits(
        solve_next(stage, events[0], timeout).0,
        events.skip(1),
        timeout,
    ))
}

/// The stage reached after `events`.
pub open spec fn solve_run_end(stage: SolveStage, events: Seq<SolveEvent>, timeout: Duration) -> SolveStage
    decreases events.len(),
{
    if events.len() == 0 {
        stage
    } else {
        solve_run_end(solve_next(stage, events[0], timeout).0, events.skip(1), timeout)
    }
}

/// How many times interception is stopped along `events`.
pub open spec fn solve_run_stops(stage: SolveStage, events: Seq<SolveEvent>, timeout: Duration) -> nat
    decreases events.len(),
{
    if events.len() == 0 {
        0
    } else {
        let next = solve_next(stage, events[0], timeout);
        (if next.1 is StopInterception { 1nat } else { 0nat }) + solve_run_stops(
            next.0,
            events.skip(1),
            timeout,
        )
    }
}

/// Stops still owed from a stage: one while interception is on and not yet being stopped.
pub open spec fn stops_owed(stage: SolveStage) -> nat {
    match stage {
        SolveStage::Navigating => 1,
        SolveStage::Loading => 1,
        SolveStage::WaitingToken => 1,
        _ => 0,
    }
}

proof fn lemma_stops_owed(stage: SolveStage, events: Seq<SolveEvent>, timeout: Duration)
    requires
        solve_run_fits(stage, events, timeout),
        solve_run_end(stage, events, timeout) is Finished,
    ensures
        solve_run_stops(stage, events, timeout) == stops_owed(stage) + (if stage is EnablingFetch
            && events.len() > 0 && events[0] matches SolveEvent::FetchEnabled(Ok(_)) {
            1nat
        } else {
            0nat
        }),
    decreases events.len(),
{
    if events.len() > 0 {
        let next = solve_next(stage, events[0], timeout);
        lemma_stops_owed(next.0, events.skip(1), timeout);
        if events.skip(1).len() > 0 {
            assert(events.skip(1)[0] == events[1]);
        }
    }
}

/// A solve that ended stopped interception exactly once if it turned it on, and
/// not at all if turning it on failed.
pub proof fn lemma_interception_stopped_once(events: Seq<SolveEvent>, timeout: Duration)
    requires
        solve_run_fits(SolveStage::EnablingFetch, events, timeout),
        solve_run_end(SolveStage::EnablingFetch, events, timeout) is Finished,
    ensures
        events.len() > 0,
        solve_run_stops(SolveStage::EnablingFetch, events, timeout) == (if events[0] matches SolveEvent::FetchEnabled(Ok(_)) {
            1nat
        } else {
            0nat
        }),
{
    lemma_stops_owed(SolveStage::EnablingFetch, events, timeout);
}

/// How many more events a solve can take from a stage before it finishes.
pub open spec fn steps_left(stage: SolveStage) -> nat {
    match stage {
        SolveStage::EnablingFetch => 5,
        SolveStage::Navigating => 4,
        SolveStage::Loading => 3,
        SolveStage::WaitingToken => 2,
        SolveStage::Stopping(_) => 1,
        SolveStage::Finished => 0,
    }
}

proof fn lemma_steps_left(stage: SolveStage, events: Seq<SolveEvent>, timeout: Duration)
    requires
        solve_run_fits(stage, events, timeout),
    ensures
        events.len() <= steps_left(stage),
    decreases events.len(),
{
    if events.len() > 0 {
        let next = solve_next(stage, events[0], timeout);
        lemma_steps_left(next.0, events.skip(1), timeout);
    }
}

/// A solve never loops: every run of results from the start has at most five
/// steps (turn interception on, navigate, wait for the load, wait for the
/// token, stop interception).
pub proof fn lemma_solve_is_finite(events: Seq<SolveEvent>, timeout: Duration)
    requires
        solve_run_fits(SolveStage::EnablingFetch, events, timeout),
    ensures
        events.len() <= 5,
{
    lemma_steps_left(SolveStage::EnablingFetch, events, timeout);
}

/// Whatever ends a step once interception is on ends the solve with that very
/// result: the token wait's result, success or failure, and a navigation or
/// load failure. Interception is stopped first, and the solve then finishes
/// with the result unchanged.
pub proof fn lemma_results_are_final(
    token: Result<String, SolverError>,
    e: SolverError,
    timeout: Duration,
)
    ensures
        ({
            let (s, a) = solve_next(SolveStage::WaitingToken, SolveEvent::TokenWaitEnded(token), timeout);
            a is StopInterception && solve_next(s, SolveEvent::Stopped, timeout) == (
                SolveStage::Finished,
                SolveAction::Finish(token),
            )
        }),
        ({
            let (s, a) = solve_next(SolveStage::Navigating, SolveEvent::Navigated(Err(e)), timeout);
            a is StopInterception && solve_next(s, SolveEvent::Stopped, timeout) == (
                SolveStage::Finished,
                SolveAction::Finish(Err(e)),
            )
        }),
        ({
            let (s, a) = solve_next(SolveStage::Loading, SolveEvent::Loaded(Err(e)), timeout);
            a is StopInterception && solve_next(s, SolveEvent::Stopped, timeout) == (
                SolveStage::Finished,
                SolveAction::Finish(Err(e)),
            )
        }),
        solve_next(SolveStage::EnablingFetch, SolveEvent::FetchEnabled(Err(e)), timeout).1
            == SolveAction::Finish(Err::<String, SolverError>(e)),
{
}

/// The solve goes forward only on success: turning interception on leads to
/// navigating, navigating to waiting for the load for at most the solver's
/// timeout, and a loaded page to waiting for the token.
pub proof fn lemma_success_moves_forward(timeout: Duration)
    ensures
        solve_next(SolveStage::EnablingFetch, SolveEvent::FetchEnabled(Ok(())), timeout)
            == (SolveStage::Navigating, SolveAction::Navigate),
        solve_next(SolveStage::Navigating, SolveEvent::Navigated(Ok(())), timeout)
            == (SolveStage::Loading, SolveAction::WaitLoad(timeout)),
        solve_next(SolveStage::Loading, SolveEvent::Loaded(Ok(())), timeout)
            == (SolveStage::WaitingToken, SolveAction::WaitToken),
{
}

/// Only a paused request of the solve's own session is handled, under its own
/// request id: the document request gets the page, every other request goes on
/// to the network; and such a request is never left paused.
pub proof fn lemma_intercept_handles_own_requests(event: Json, session: Option<Seq<char>>)
    ensures
        !(intercept_spec(event, session) is Skip) ==> get_str(Some(event), "method"@) == Some(
            "Fetch.requestPaused"@,
        ) && get_str(Some(event), "sessionId"@) == session,
        intercept_spec(event, session) matches InterceptView::Fulfill(id) ==> get_str(
            event.get("params"@),
            "requestId"@,
        ) == Some(id) && get_str(event.get("params"@), "resourceType"@) == Some("Document"@),
        intercept_spec(event, session) matches InterceptView::Continue(id) ==> get_str(
            event.get("params"@),
            "requestId"@,
        ) == Some(id) && get_str(event.get("params"@), "resourceType"@) != Some("Document"@),
        (get_str(Some(event), "method"@) == Some("Fetch.requestPaused"@) && get_str(
            Some(event),
            "sessionId"@,
        ) == session && get_str(event.get("params"@), "requestId"@) is Some) ==> !(intercept_spec(
            event,
            session,
        ) is Skip),
{
}

/// The deadline only decides a look that found neither a token nor an error:
/// before it the wait goes on, after it the wait ends with `Timeout`. A token
/// handed back is never empty, and the wait never goes on past the deadline.
pub proof fn lemma_token_poll_deadline(response: Json)
    ensures
        token_poll_spec(response, true) != token_poll_spec(response, false) ==> token_poll_spec(
            response,
            false,
        ) == Ok::<Option<Seq<char>>, SolverFault>(None) && token_poll_spec(response, true) == Err::<
            Option<Seq<char>>,
            SolverFault,
        >(SolverFault::Timeout),
        token_poll_spec(response, true) != Ok::<Option<Seq<char>>, SolverFault>(None),
        token_poll_spec(response, false) matches Ok(Some(t)) ==> t.len() > 0 && get_str(
            get_opt(response.get("result"@), "value"@),
            "token"@,
        ) == Some(t),
{
}

} // verus!
