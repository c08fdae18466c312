//! Request and response bodies of the HTTP interface, and the answer to each
//! outcome of a request.
use vstd::prelude::*;
use vstd::string::*;
use std::collections::HashMap;
use std::time::Duration;
use crate::browser::pool::CapacityStats;
use crate::config::Config;
use crate::duration::duration_from_millis;
use crate::solvers::iuam::IuamResult;
use crate::text::opt_view;

verus! {

/// Body of a health report.
pub struct HealthResponse {
    pub status: String,
    pub timestamp: String,
    pub capacity: CapacityInfo,
}

/// Capacity figures in a health report.
pub struct CapacityInfo {
    pub total: usize,
    pub available: usize,
    pub active: usize,
    pub processes: usize,
}

/// Body of a Turnstile request.
pub struct TurnstileRequest {
    pub url: String,
    pub sitekey: String,
    pub cdata: Option<String>,
    pub action: Option<String>,
    pub proxy: Option<String>,
}

/// Body of a Turnstile answer.
pub struct TurnstileResponse {
    pub status: String,
    pub token: Option<String>,
    pub error: Option<String>,
    pub elapsed_ms: u128,
    pub timestamp: String,
}

/// Body of a clearance request.
pub struct IuamRequest {
    pub url: String,
    pub proxy: Option<String>,
}

/// Body of a clearance answer.
pub struct IuamResponse {
    pub status: String,
    pub cf_clearance: Option<String>,
    pub user_agent: Option<String>,
    pub ip: Option<String>,
    pub cookies: Option<HashMap<String, String>>,
    pub error: Option<String>,
    pub elapsed_ms: u128,
    pub timestamp: String,
}

/// The health report: the service is up, with the pool's capacity figures.
pub fn health_response(stats: &CapacityStats, timestamp: String) -> (r: HealthResponse)
    ensures
        r.status@ == "healthy"@,
        r.timestamp@ == timestamp@,
        r.capacity.total == stats.total,
        r.capacity.available == stats.available,
        r.capacity.active == stats.active,
        r.capacity.processes == stats.processes,
{
    HealthResponse {
        status: String::from_str("healthy"),
        timestamp,
        capacity: CapacityInfo {
            total: stats.total,
            available: stats.available,
            active: stats.active,
            processes: stats.processes,
        },
    }
}

/// How a solve request went, each failure with its message.
pub enum HandlerOutcome<T> {
    /// No slot could be acquired.
    AcquireFailed(String),
    /// The slot's page could not be opened.
    PageFailed(String),
    /// The solver failed.
    SolveFailed(String),
    /// The solver succeeded.
    Solved(T),
}

/// 200 OK.
pub const STATUS_OK: u16 = 200;

/// 400 Bad Request.
pub const STATUS_BAD_REQUEST: u16 = 400;

/// 503 Service Unavailable.
pub const STATUS_UNAVAILABLE: u16 = 503;

/// The HTTP status for an outcome: the pool failing is unavailability, the
/// solver failing is a bad request.
pub open spec fn status_for<T>(o: HandlerOutcome<T>) -> u16 {
    match o {
        HandlerOutcome::AcquireFailed(_) => STATUS_UNAVAILABLE,
        HandlerOutcome::PageFailed(_) => STATUS_UNAVAILABLE,
        HandlerOutcome::SolveFailed(_) => STATUS_BAD_REQUEST,
        HandlerOutcome::Solved(_) => STATUS_OK,
    }
}

/// The failure message of an outcome.
pub open spec fn failure_of<T>(o: HandlerOutcome<T>) -> Option<Seq<char>> {
    match o {
        HandlerOutcome::AcquireFailed(m) => Some(m@),
        HandlerOutcome::PageFailed(m) => Some(m@),
        HandlerOutcome::SolveFailed(m) => Some(m@),
        HandlerOutcome::Solved(_) => None,
    }
}

/// The answer to a Turnstile request: `success` with the token, or `failed`
/// with the message.
pub fn turnstile_reply(outcome: HandlerOutcome<String>, elapsed_ms: u128, timestamp: String) -> (r: (
    u16,
    TurnstileResponse,
))
    ensures
        r.0 == status_for(outcome),
        r.1.elapsed_ms == elapsed_ms,
        r.1.timestamp@ == timestamp@,
        opt_view(r.1.error) == failure_of(outcome),
        match outcome {
            HandlerOutcome::Solved(token) => r.1.status@ == "success"@ && opt_view(r.1.token)
                == Some(token@),
            _ => r.1.status@ == "failed"@ && r.1.token is None,
        },
{
    match outcome {
        HandlerOutcome::Solved(token) => (
            STATUS_OK,
            TurnstileResponse {
                status: String::from_str("success"),
                token: Some(token),
                error: None,
                elapsed_ms,
                timestamp,
            },
        ),
        HandlerOutcome::AcquireFailed(m) => (STATUS_UNAVAILABLE, turnstile_failure(m, elapsed_ms, timestamp)),
        HandlerOutcome::PageFailed(m) => (STATUS_UNAVAILABLE, turnstile_failure(m, elapsed_ms, timestamp)),
        HandlerOutcome::SolveFailed(m) => (STATUS_BAD_REQUEST, turnstile_failure(m, elapsed_ms, timestamp)),
    }
}

fn turnstile_failure(message: String, elapsed_ms: u128, timestamp: String) -> (r: TurnstileResponse)
    ensures
        r.status@ == "failed"@,
        r.token is None,
        opt_view(r.error) == Some(message@),
        r.elapsed_ms == elapsed_ms,
        r.timestamp@ == timestamp@,
{
    TurnstileResponse {
        status: String::from_str("failed"),
        token: None,
        error: Some(message),
        elapsed_ms,
        timestamp,
    }
}

fn iuam_failure(message: String, elapsed_ms: u128, timestamp: String) -> (r: IuamResponse)
    ensures
        r.status@ == "failed"@,
        r.cf_clearance is None && r.user_agent is None && r.ip is None && r.cookies is None,
        opt_view(r.error) == Some(message@),
        r.elapsed_ms == elapsed_ms,
        r.timestamp@ == timestamp@,
{
    IuamResponse {
        status: String::from_str("failed"),
        cf_clearance: None,
        user_agent: None,
        ip: None,
        cookies: None,
        error: Some(message),
        elapsed_ms,
        timestamp,
    }
}

/// The answer to a clearance request: `success` with the clearance, user agent,
/// address and cookies, or `failed` with the message.
pub fn iuam_reply(outcome: HandlerOutcome<IuamResult>, elapsed_ms: u128, timestamp: String) -> (r: (
    u16,
    IuamResponse,
))
    ensures
        r.0 == status_for(outcome),
        r.1.elapsed_ms == elapsed_ms,
        r.1.timestamp@ == timestamp@,
        opt_view(r.1.error) == failure_of(outcome),
        match outcome {
            HandlerOutcome::Solved(res) => r.1.status@ == "success"@ && opt_view(r.1.cf_clearance)
                == Some(res.cf_clearance@) && opt_view(r.1.user_agent) == Some(res.user_agent@)
                && opt_view(r.1.ip) == Some(res.ip@) && r.1.cookies == Some(res.cookies),
            _ => r.1.status@ == "failed"@ && r.1.cf_clearance is None && r.1.user_agent is None
                && r.1.ip is None && r.1.cookies is None,
        },
{
    match outcome {
        HandlerOutcome::Solved(res) => (
            STATUS_OK,
            IuamResponse {
                status: String::from_str("success"),
                cf_clearance: Some(res.cf_clearance),
                user_agent: Some(res.user_agent),
                ip: Some(res.ip),
                cookies: Some(res.cookies),
                error: None,
                elapsed_ms,
                timestamp,
            },
        ),
        HandlerOutcome::AcquireFailed(m) => (STATUS_UNAVAILABLE, iuam_failure(m, elapsed_ms, timestamp)),
        HandlerOutcome::PageFailed(m) => (STATUS_UNAVAILABLE, iuam_failure(m, elapsed_ms, timestamp)),
        HandlerOutcome::SolveFailed(m) => (STATUS_BAD_REQUEST, iuam_failure(m, elapsed_ms, timestamp)),
    }
}

/// The page a slot opens before a solve: the solvers bring their own content.
pub const START_PAGE: &'static str = "about:blank";

/// Where a request stands.
pub enum HandlerStage<T> {
    /// Waiting for a slot.
    Acquiring,
    /// Holding a slot, opening its page.
    OpeningPage,
    /// Holding a slot, solving.
    Solving,
    /// Giving the slot back, to answer with the outcome afterwards.
    Releasing(HandlerOutcome<T>),
    /// Answered.
    Done,
}

/// What the last action gave.
pub enum HandlerEvent<T> {
    /// Acquiring a slot succeeded, or failed with a message.
    Acquired(Result<(), String>),
    /// Opening the slot's page succeeded, or failed with a message.
    PageOpened(Result<(), String>),
    /// The solver's result, or its failure message.
    SolveEnded(Result<T, String>),
    /// The slot is back in the pool.
    Released,
}

/// What to do next.
pub enum HandlerAction<T> {
    /// Open [`START_PAGE`] in the slot.
    OpenPage,
    /// Run the solver with this timeout.
    Solve(Duration),
    /// Give the slot back to the pool.
    Release,
    /// Answer the request with this outcome.
    Reply(HandlerOutcome<T>),
}

/// The event is the result of the action that led to the stage.
pub open spec fn event_fits<T>(stage: HandlerStage<T>, event: HandlerEvent<T>) -> bool {
    match (stage, event) {
        (HandlerStage::Acquiring, HandlerEvent::Acquired(_)) => true,
        (HandlerStage::OpeningPage, HandlerEvent::PageOpened(_)) => true,
        (HandlerStage::Solving, HandlerEvent::SolveEnded(_)) => true,
        (HandlerStage::Releasing(_), HandlerEvent::Released) => true,
        _ => false,
    }
}

/// The next stage and action. A slot that was acquired is given back whatever
/// happens after, before the answer; the solver runs with `timeout`.
pub open spec fn handler_next<T>(stage: HandlerStage<T>, event: HandlerEvent<T>, timeout: Duration) -> (
    HandlerStage<T>,
    HandlerAction<T>,
) {
    match (stage, event) {
        (HandlerStage::Acquiring, HandlerEvent::Acquired(Err(m))) => (
            HandlerStage::Done,
            HandlerAction::Reply(HandlerOutcome::AcquireFailed(m)),
        ),
        (HandlerStage::Acquiring, HandlerEvent::Acquired(Ok(_))) => (
            HandlerStage::OpeningPage,
            HandlerAction::OpenPage,
        ),
        (HandlerStage::OpeningPage, HandlerEvent::PageOpened(Err(m))) => (
            HandlerStage::Releasing(HandlerOutcome::PageFailed(m)),
            HandlerAction::Release,
        ),
        (HandlerStage::OpeningPage, HandlerEvent::PageOpened(Ok(_))) => (
            HandlerStage::Solving,
            HandlerAction::Solve(timeout),
        ),
        (HandlerStage::Solving, HandlerEvent::SolveEnded(Ok(v))) => (
            HandlerStage::Releasing(HandlerOutcome::Solved(v)),
            HandlerAction::Release,
        ),
        (HandlerStage::Solving, HandlerEvent::SolveEnded(Err(m))) => (
            HandlerStage::Releasing(HandlerOutcome::SolveFailed(m)),
            HandlerAction::Release,
        ),
        (HandlerStage::Releasing(o), HandlerEvent::Released) => (
            HandlerStage::Done,
            HandlerAction::Reply(o),
        ),
        (st, _) => (st, HandlerAction::Release),
    }
}

/// One step of serving a request, from the result of the last action. The
/// solver's timeout is the configured solve timeout.
pub fn handler_step<T>(stage: HandlerStage<T>, event: HandlerEvent<T>, config: &Config) -> (r: (
    HandlerStage<T>,
    HandlerAction<T>,
))
    requires
        event_fits(stage, event),
    ensures
        r == handler_next(stage, event, duration_from_millis(config.solve_timeout_ms)),
{
    match (stage, event) {
        (HandlerStage::Acquiring, HandlerEvent::Acquired(Err(m))) => (
            HandlerStage::Done,
            HandlerAction::Reply(HandlerOutcome::AcquireFailed(m)),
        ),
        (HandlerStage::Acquiring, HandlerEvent::Acquired(Ok(_))) => (
            HandlerStage::OpeningPage,
            HandlerAction::OpenPage,
        ),
        (HandlerStage::OpeningPage, HandlerEvent::PageOpened(Err(m))) => (
            HandlerStage::Releasing(HandlerOutcome::PageFailed(m)),
            HandlerAction::Release,
        ),
        (HandlerStage::OpeningPage, HandlerEvent::PageOpened(Ok(_))) => (
            HandlerStage::Solving,
            HandlerAction::Solve(config.solve_timeout_duration()),
        ),
        (HandlerStage::Solving, HandlerEvent::SolveEnded(Ok(v))) => (
            HandlerStage::Releasing(HandlerOutcome::Solved(v)),
            HandlerAction::Release,
        ),
        (HandlerStage::Solving, HandlerEvent::SolveEnded(Err(m))) => (
            HandlerStage::Releasing(HandlerOutcome::SolveFailed(m)),
            HandlerAction::Release,
        ),
        (HandlerStage::Releasing(o), HandlerEvent::Released) => (
            HandlerStage::Done,
            HandlerAction::Reply(o),
        ),
        (st, _) => (st, HandlerAction::Release),
    }
}

/// Every event of `events` is the result of the action before it, starting from `stage`.
pub open spec fn run_fits<T>(stage: HandlerStage<T>, events: Seq<HandlerEvent<T>>, timeout: Duration) -> bool
    decreases events.len(),
{
    events.len() == 0 || (event_fits(stage, events[0]) && run_fits(
        handler_next(stage, events[0], timeout).0,
        events.skip(1),
        timeout,
    ))
}

/// The stage reached after `events`.
pub open spec fn run_end<T>(stage: HandlerStage<T>, events: Seq<HandlerEvent<T>>, timeout: Duration) -> HandlerStage<T>
    decreases events.len(),
{
    if events.len() == 0 {
        stage
    } else {
        run_end(handler_next(stage, events[0], timeout).0, events.skip(1), timeout)
    }
}

/// How many times the slot is given back along `events`.
pub open spec fn run_releases<T>(stage: HandlerStage<T>, events: Seq<HandlerEvent<T>>, timeout: Duration) -> nat
    decreases events.len(),
{
    if events.len() == 0 {
        0
    } else {
        let next = handler_next(stage, events[0], timeout);
        (if next.1 is Release { 1nat } else { 0nat }) + run_releases(next.0, events.skip(1), timeout)
    }
}

/// Releases still owed from a stage: one while a slot is held and not yet being
/// given back.
pub open spec fn releases_owed<T>(stage: HandlerStage<T>) -> nat {
    match stage {
        HandlerStage::OpeningPage => 1,
        HandlerStage::Solving => 1,
        _ => 0,
    }
}

proof fn lemma_releases_owed<T>(stage: HandlerStage<T>, events: Seq<HandlerEvent<T>>, timeout: Duration)
    requires
        run_fits(stage, events, timeout),
        run_end(stage, events, timeout) is Done,
    ensures
        run_releases(stage, events, timeout) == releases_owed(stage) + (if stage is Acquiring
            && events.len() > 0 && events[0] matches HandlerEvent::Acquired(Ok(_)) {
            1nat
        } else {
            0nat
        }),
    decreases events.len(),
{
    if events.len() > 0 {
        let next = handler_next(stage, events[0], timeout);
        lemma_releases_owed(next.0, events.skip(1), timeout);
        if events.skip(1).len() > 0 {
            assert(events.skip(1)[0] == events[1]);
        }
    }
}

/// A request that was answered gave its slot back exactly once if it got one,
/// and not at all if it did not; so the pool's slots are as many as before.
pub proof fn lemma_acquired_slot_released_once<T>(events: Seq<HandlerEvent<T>>, timeout: Duration)
    requires
        run_fits(HandlerStage::Acquiring, events, timeout),
        run_end(HandlerStage::Acquiring, events, timeout) is Done,
    ensures
        events.len() > 0,
        run_releases(HandlerStage::Acquiring, events, timeout) == (if events[0] matches HandlerEvent::Acquired(Ok(_)) {
            1nat
        } else {
            0nat
        }),
{
    lemma_releases_owed(HandlerStage::<T>::Acquiring, events, timeout);
}

} // verus!
