//! Decisions of the "I'm Under Attack Mode" solver.
//!
//! The solver opens the target page and polls the browser's cookies until the
//! `cf_clearance` cookie appears.
use vstd::prelude::*;
use vstd::string::*;
use std::collections::HashMap;
use std::time::Duration;
use crate::duration::{DURATION_MAX_NANOS, duration_from_millis, duration_from_secs, duration_nanos, millis, nanos, secs};
use crate::json::{Json, JsonValue, get_str, items_model};
use crate::browser::cdp::{result_value_str, result_value_string};
use crate::browser::pool::BrowserContext;
use crate::solvers::error::{SolverError, SolverFault};
use crate::solvers::utils::{no_session_fault, session_of, url_problem, validate_url};
use crate::text::str_eq;

verus! {

/// How long to wait for clearance, and how often to look for it.
pub struct IuamSolver {
    pub timeout_duration: Duration,
    pub poll_interval: Duration,
}

/// What a solved challenge yields.
#[derive(Debug, Clone)]
pub struct IuamResult {
    pub cf_clearance: String,
    pub user_agent: String,
    pub cookies: HashMap<String, String>,
    pub ip: String,
}

/// What to solve: the page URL and an optional proxy.
#[derive(Debug, Clone)]
pub struct IuamParams {
    pub url: String,
    pub proxy: Option<String>,
}

impl IuamSolver {
    /// Waits up to 29 seconds, looking every 500 milliseconds.
    pub fn new() -> (r: IuamSolver)
        ensures
            r.timeout_duration == duration_from_secs(29),
            r.poll_interval == duration_from_millis(500),
    {
        IuamSolver { timeout_duration: secs(29), poll_interval: millis(500) }
    }

    pub fn with_timeout(self, duration: Duration) -> (r: IuamSolver)
        ensures
            r.timeout_duration == duration,
            r.poll_interval == self.poll_interval,
    {
        IuamSolver { timeout_duration: duration, ..self }
    }

    pub fn with_poll_interval(self, duration: Duration) -> (r: IuamSolver)
        ensures
            r.timeout_duration == self.timeout_duration,
            r.poll_interval == duration,
    {
        IuamSolver { poll_interval: duration, ..self }
    }
}

impl Default for IuamSolver {
    fn default() -> (r: IuamSolver)
        ensures
            r.timeout_duration == duration_from_secs(29),
            r.poll_interval == duration_from_millis(500),
    {
        IuamSolver::new()
    }
}

/// The name and value of a cookie record, when both are strings.
pub open spec fn cookie_pair(c: Json) -> Option<(Seq<char>, Seq<char>)> {
    match (get_str(Some(c), "name"@), get_str(Some(c), "value"@)) {
        (Some(n), Some(v)) => Some((n, v)),
        _ => None,
    }
}

/// Some cookie in `jar` is named `name`.
pub open spec fn has_name(jar: Seq<(Seq<char>, Seq<char>)>, name: Seq<char>) -> bool {
    exists|i: int| 0 <= i < jar.len() && #[trigger] jar[i].0 == name
}

pub open spec fn name_index(jar: Seq<(Seq<char>, Seq<char>)>, name: Seq<char>) -> int {
    choose|i: int| 0 <= i < jar.len() && #[trigger] jar[i].0 == name
}

/// No two cookies in `jar` share a name.
pub open spec fn names_unique(jar: Seq<(Seq<char>, Seq<char>)>) -> bool {
    forall|i: int, j: int|
        0 <= i < jar.len() && 0 <= j < jar.len() && i != j ==> #[trigger] jar[i].0 != #[trigger] jar[j].0
}

/// Stores `value` under `name`, replacing an earlier value of that name in place.
pub open spec fn set_cookie(jar: Seq<(Seq<char>, Seq<char>)>, name: Seq<char>, value: Seq<char>) -> Seq<(Seq<char>, Seq<char>)> {
    if has_name(jar, name) {
        jar.update(name_index(jar, name), (name, value))
    } else {
        jar.push((name, value))
    }
}

/// The cookies of a listing by name, a later record of a name overriding an
/// earlier one; records without a string name and value are skipped.
pub open spec fn cookie_jar(cs: Seq<Json>) -> Seq<(Seq<char>, Seq<char>)>
    decreases cs.len(),
{
    if cs.len() == 0 {
        Seq::empty()
    } else {
        let jar = cookie_jar(cs.drop_last());
        match cookie_pair(cs.last()) {
            Some((n, v)) => set_cookie(jar, n, v),
            None => jar,
        }
    }
}

/// The value of the last `cf_clearance` record of a listing.
pub open spec fn clearance_spec(cs: Seq<Json>) -> Option<Seq<char>>
    decreases cs.len(),
{
    if cs.len() == 0 {
        None
    } else {
        match cookie_pair(cs.last()) {
            Some((n, v)) if n == "cf_clearance"@ => Some(v),
            _ => clearance_spec(cs.drop_last()),
        }
    }
}

/// The value stored under `name` in a jar.
pub open spec fn jar_value(jar: Seq<(Seq<char>, Seq<char>)>, name: Seq<char>) -> Option<Seq<char>> {
    if has_name(jar, name) {
        Some(jar[name_index(jar, name)].1)
    } else {
        None
    }
}

proof fn lemma_name_index_unique(jar: Seq<(Seq<char>, Seq<char>)>, i: int)
    requires
        names_unique(jar),
        0 <= i < jar.len(),
    ensures
        has_name(jar, jar[i].0),
        name_index(jar, jar[i].0) == i,
{
    assert(jar[i].0 == jar[i].0);
}

/// Setting a cookie keeps names unique, and the cookie's name then holds its value
/// while every other name keeps its own.
proof fn lemma_set_cookie(jar: Seq<(Seq<char>, Seq<char>)>, n: Seq<char>, v: Seq<char>, other: Seq<char>)
    requires
        names_unique(jar),
    ensures
        names_unique(set_cookie(jar, n, v)),
        jar_value(set_cookie(jar, n, v), n) == Some(v),
        other != n ==> jar_value(set_cookie(jar, n, v), other) == jar_value(jar, other),
{
    let j2 = set_cookie(jar, n, v);
    if has_name(jar, n) {
        let k = name_index(jar, n);
        assert forall|i: int, j: int|
            0 <= i < j2.len() && 0 <= j < j2.len() && i != j implies #[trigger] j2[i].0 != #[trigger] j2[j].0 by {
            if i == k {
                assert(jar[j].0 != jar[k].0);
            }
            if j == k {
                assert(jar[i].0 != jar[k].0);
            }
        }
        lemma_name_index_unique(j2, k);
        if other != n {
            if has_name(jar, other) {
                let m = name_index(jar, other);
                assert(j2[m].0 == other);
                lemma_name_index_unique(j2, m);
            } else {
                assert forall|i: int| 0 <= i < j2.len() implies #[trigger] j2[i].0 != other by {
                    if i != k {
                        assert(jar[i].0 != other);
                    }
                }
            }
        }
    } else {
        assert forall|i: int, j: int|
            0 <= i < j2.len() && 0 <= j < j2.len() && i != j implies #[trigger] j2[i].0 != #[trigger] j2[j].0 by {
            if i == jar.len() {
                assert(jar[j].0 != n);
            }
            if j == jar.len() {
                assert(jar[i].0 != n);
            }
        }
        lemma_name_index_unique(j2, jar.len() as int);
        if other != n {
            if has_name(jar, other) {
                let m = name_index(jar, other);
                assert(j2[m].0 == other);
                lemma_name_index_unique(j2, m);
            } else {
                assert forall|i: int| 0 <= i < j2.len() implies #[trigger] j2[i].0 != other by {
                    if i < jar.len() {
                        assert(jar[i].0 != other);
                    }
                }
            }
        }
    }
}

/// A cookie listing by name holds each name once, and the clearance found is the
/// value the listing ends up holding under `cf_clearance`.
pub proof fn lemma_cookie_jar_consistent(cs: Seq<Json>)
    ensures
        names_unique(cookie_jar(cs)),
        clearance_spec(cs) == jar_value(cookie_jar(cs), "cf_clearance"@),
    decreases cs.len(),
{
    if cs.len() > 0 {
        lemma_cookie_jar_consistent(cs.drop_last());
        let jar = cookie_jar(cs.drop_last());
        match cookie_pair(cs.last()) {
            Some((n, v)) => {
                lemma_set_cookie(jar, n, v, "cf_clearance"@);
            },
            None => {},
        }
    }
}

/// What a look at the browser's cookies found.
pub struct CookieScan {
    /// Every cookie by name, each name once, in order of first appearance.
    pub cookies: Vec<(String, String)>,
    /// The value of the `cf_clearance` cookie, when there is one.
    pub cf_clearance: Option<String>,
}

pub open spec fn pairs_view(v: Seq<(String, String)>) -> Seq<(Seq<char>, Seq<char>)> {
    Seq::new(v.len(), |i: int| (v[i].0@, v[i].1@))
}

fn find_name(jar: &Vec<(String, String)>, name: &str) -> (r: Option<usize>)
    requires
        names_unique(pairs_view(jar@)),
    ensures
        match r {
            Some(i) => has_name(pairs_view(jar@), name@) && name_index(pairs_view(jar@), name@) == i,
            None => !has_name(pairs_view(jar@), name@),
        },
{
    let mut i: usize = 0;
    while i < jar.len()
        invariant
            i <= jar@.len(),
            names_unique(pairs_view(jar@)),
            forall|k: int| 0 <= k < i ==> pairs_view(jar@)[k].0 != name@,
        decreases jar@.len() - i,
    {
        if str_eq(jar[i].0.as_str(), name) {
            proof {
                lemma_name_index_unique(pairs_view(jar@), i as int);
            }
            return Some(i);
        }
        i = i + 1;
    }
    None
}

/// Collects the cookies of a listing by name and picks out `cf_clearance`.
pub fn scan_cookies(cookies: &Vec<JsonValue>) -> (r: CookieScan)
    ensures
        pairs_view(r.cookies@) == cookie_jar(items_model(cookies@)),
        crate::text::opt_view(r.cf_clearance) == clearance_spec(items_model(cookies@)),
{
    let ghost cs = items_model(cookies@);
    let mut jar: Vec<(String, String)> = Vec::new();
    let mut clearance: Option<String> = None;
    let mut i: usize = 0;
    assert(cs.subrange(0, 0) =~= Seq::<Json>::empty());
    assert(pairs_view(jar@) =~= Seq::<(Seq<char>, Seq<char>)>::empty());
    while i < cookies.len()
        invariant
            i <= cookies@.len(),
            cs == items_model(cookies@),
            pairs_view(jar@) == cookie_jar(cs.subrange(0, i as int)),
            names_unique(pairs_view(jar@)),
            crate::text::opt_view(clearance) == clearance_spec(cs.subrange(0, i as int)),
        decreases cookies@.len() - i,
    {
        let ghost prefix = cs.subrange(0, i + 1);
        assert(prefix.drop_last() =~= cs.subrange(0, i as int));
        assert(prefix.last() == cookies@[i as int]@);
        proof {
            lemma_cookie_jar_consistent(cs.subrange(0, i as int));
        }
        let cookie = &cookies[i];
        let name = match cookie.get("name") {
            Some(n) => n.as_str(),
            None => None,
        };
        let value = match cookie.get("value") {
            Some(v) => v.as_str(),
            None => None,
        };
        if let (Some(n), Some(v)) = (name, value) {
            let ghost before = pairs_view(jar@);
            match find_name(&jar, n) {
                Some(k) => {
                    jar.set(k, (String::from_str(n), String::from_str(v)));
                },
                None => {
                    jar.push((String::from_str(n), String::from_str(v)));
                },
            }
            assert(pairs_view(jar@) =~= set_cookie(before, n@, v@));
            proof {
                lemma_set_cookie(before, n@, v@, n@);
            }
            if str_eq(n, "cf_clearance") {
                clearance = Some(String::from_str(v));
            }
        }
        i = i + 1;
    }
    assert(cs.subrange(0, cookies@.len() as int) =~= cs);
    CookieScan { cookies: jar, cf_clearance: clearance }
}

/// Model of a [`ClearanceWait`], in nanoseconds: the time spent polling so far,
/// the solver's timeout, and its poll interval.
pub struct WaitView {
    pub elapsed: nat,
    pub timeout: nat,
    pub poll: nat,
}

/// The clock of a wait for `cf_clearance`. Time is counted in poll intervals:
/// each poll that finds no clearance adds one interval, whatever the poll took.
pub struct ClearanceWait {
    elapsed_ns: u128,
    timeout_ns: u128,
    poll_ns: u128,
}

impl View for ClearanceWait {
    type V = WaitView;

    closed spec fn view(&self) -> WaitView {
        WaitView {
            elapsed: self.elapsed_ns as nat,
            timeout: self.timeout_ns as nat,
            poll: self.poll_ns as nat,
        }
    }
}

impl WaitView {
    /// The spans fit a `Duration`, and the elapsed time is less than two of them.
    pub open spec fn wf(self) -> bool {
        &&& self.timeout <= DURATION_MAX_NANOS
        &&& self.poll <= DURATION_MAX_NANOS
        &&& self.elapsed <= 2 * DURATION_MAX_NANOS
    }

    /// The wait has run out: at least the timeout has elapsed.
    pub open spec fn expired(self) -> bool {
        self.elapsed >= self.timeout
    }

    /// The clock after `k` polls that found no clearance.
    pub open spec fn after_polls(self, k: nat) -> WaitView {
        WaitView { elapsed: self.elapsed + k * self.poll, ..self }
    }
}

/// What one poll of the browser's cookies decides.
pub enum ClearancePoll {
    /// `cf_clearance` is there: the cookies of the listing, and its value.
    Cleared(CookieScan),
    /// Not yet: sleep one poll interval and look again.
    Wait,
}

impl IuamSolver {
    /// A fresh wait with this solver's timeout and poll interval and nothing elapsed.
    pub fn start_wait(&self) -> (r: ClearanceWait)
        ensures
            r@.wf(),
            r@ == (WaitView {
                elapsed: 0,
                timeout: duration_nanos(self.timeout_duration),
                poll: duration_nanos(self.poll_interval),
            }),
    {
        ClearanceWait {
            elapsed_ns: 0,
            timeout_ns: nanos(&self.timeout_duration),
            poll_ns: nanos(&self.poll_interval),
        }
    }
}

impl ClearanceWait {
    /// Before each poll: fails with `Timeout` once the timeout has elapsed.
    pub fn check(&self) -> (r: Result<(), SolverError>)
        ensures
            match r {
                Ok(_) => !self@.expired(),
                Err(e) => self@.expired() && e@ == SolverFault::Timeout,
            },
    {
        if self.elapsed_ns >= self.timeout_ns {
            Err(SolverError::Timeout)
        } else {
            Ok(())
        }
    }

    /// Reads one listing of the browser's cookies. When it holds `cf_clearance`
    /// the wait is over and the clock stays; otherwise one poll interval elapses.
    pub fn observe(&mut self, cookies: &Vec<JsonValue>) -> (r: ClearancePoll)
        requires
            old(self)@.wf(),
            !old(self)@.expired(),
        ensures
            final(self)@.wf(),
            match r {
                ClearancePoll::Cleared(scan) => {
                    &&& clearance_spec(items_model(cookies@)) is Some
                    &&& crate::text::opt_view(scan.cf_clearance) == clearance_spec(items_model(cookies@))
                    &&& pairs_view(scan.cookies@) == cookie_jar(items_model(cookies@))
                    &&& final(self)@ == old(self)@
                },
                ClearancePoll::Wait => {
                    &&& clearance_spec(items_model(cookies@)) is None
                    &&& final(self)@ == old(self)@.after_polls(1)
                },
            },
    {
        let scan = scan_cookies(cookies);
        if scan.cf_clearance.is_some() {
            ClearancePoll::Cleared(scan)
        } else {
            self.elapsed_ns = self.elapsed_ns + self.poll_ns;
            ClearancePoll::Wait
        }
    }
}

/// A wait with a positive poll interval ends: after `timeout / poll + 1` polls
/// that find no clearance, the timeout has elapsed; and `k` such polls add
/// exactly `k` intervals.
pub proof fn lemma_wait_ends(w: WaitView, k: nat)
    requires
        w.elapsed == 0,
        w.poll > 0,
    ensures
        w.after_polls(k).elapsed == k * w.poll,
        k >= w.timeout / w.poll + 1 ==> w.after_polls(k).expired(),
{
    if k >= w.timeout / w.poll + 1 {
        let q = w.timeout / w.poll;
        assert(w.timeout < (q + 1) * w.poll) by (nonlinear_arith)
            requires
                w.poll > 0,
                q == w.timeout / w.poll,
        ;
        assert((q + 1) * w.poll <= k * w.poll) by (nonlinear_arith)
            requires
                k >= q + 1,
                w.poll > 0,
        ;
    }
}

/// The checks a clearance solve makes before it sends any DevTools command, in
/// order: the URL, then the slot's session, which it returns.
pub fn iuam_start<'a, S>(context: &'a BrowserContext<S>, url: &str) -> (r: Result<&'a S, SolverError>)
    ensures
        match r {
            Ok(session) => url_problem(url@) is None && context.cdp_session == Some(*session),
            Err(e) => match url_problem(url@) {
                Some(f) => e@ == f,
                None => context.cdp_session is None && e@ == no_session_fault(),
            },
        },
{
    validate_url(url)?;
    session_of(context)
}

/// What a clearance solve does after its checks: navigate to the target URL,
/// wait for the page to load, then wait for clearance.
pub enum ClearanceStage {
    Navigating,
    Loading,
}

/// What the last action gave.
pub enum ClearanceEvent {
    Navigated(Result<(), SolverError>),
    Loaded(Result<(), SolverError>),
}

/// What to do next.
pub enum ClearanceAction {
    /// Wait for the page to load, at most this long.
    WaitLoad(Duration),
    /// Poll for the clearance cookie, as [`ClearanceWait`] decides.
    AwaitClearance,
    /// End the solve with this error.
    Fail(SolverError),
}

/// The event is the result of the action that led to the stage.
pub open spec fn clearance_event_fits(stage: ClearanceStage, event: ClearanceEvent) -> bool {
    match (stage, event) {
        (ClearanceStage::Navigating, ClearanceEvent::Navigated(_)) => true,
        (ClearanceStage::Loading, ClearanceEvent::Loaded(_)) => true,
        _ => false,
    }
}

/// The next stage, when the solve goes on, and the action: a failed step ends
/// the solve with its error; the page load is awaited for at most `timeout`.
pub open spec fn clearance_next(stage: ClearanceStage, event: ClearanceEvent, timeout: Duration) -> (
    Option<ClearanceStage>,
    ClearanceAction,
) {
    match event {
        ClearanceEvent::Navigated(Err(e)) => (None, ClearanceAction::Fail(e)),
        ClearanceEvent::Navigated(Ok(_)) => (
            Some(ClearanceStage::Loading),
            ClearanceAction::WaitLoad(timeout),
        ),
        ClearanceEvent::Loaded(Err(e)) => (None, ClearanceAction::Fail(e)),
        ClearanceEvent::Loaded(Ok(_)) => (None, ClearanceAction::AwaitClearance),
    }
}

impl IuamSolver {
    /// One step of a clearance solve, from the result of the last action.
    pub fn clearance_step(&self, stage: ClearanceStage, event: ClearanceEvent) -> (r: (
        Option<ClearanceStage>,
        ClearanceAction,
    ))
        requires
            clearance_event_fits(stage, event),
        ensures
            r == clearance_next(stage, event, self.timeout_duration),
    {
        match event {
            ClearanceEvent::Navigated(Err(e)) => (None, ClearanceAction::Fail(e)),
            ClearanceEvent::Navigated(Ok(_)) => (
                Some(ClearanceStage::Loading),
                ClearanceAction::WaitLoad(self.timeout_duration),
            ),
            ClearanceEvent::Loaded(Err(e)) => (None, ClearanceAction::Fail(e)),
            ClearanceEvent::Loaded(Ok(_)) => (None, ClearanceAction::AwaitClearance),
        }
    }
}

/// The user agent an evaluation of `navigator.userAgent` reports.
pub open spec fn user_agent_spec(response: Json) -> Result<Seq<char>, SolverFault> {
    match result_value_str(response) {
        Some(s) => Ok(s),
        None => Err(SolverFault::TokenExtractionFailed("Could not extract User-Agent"@)),
    }
}

pub fn user_agent_from(response: &JsonValue) -> (r: Result<String, SolverError>)
    ensures
        crate::solvers::turnstile::solver_text_view(r) == user_agent_spec(response@),
{
    match result_value_string(response) {
        Some(s) => Ok(s),
        None => Err(SolverError::TokenExtractionFailed(String::from_str("Could not extract User-Agent"))),
    }
}

/// The script that asks a public service for the browser's address.
pub const IP_SCRIPT: &'static str = r#"
            (async function() {
                try {
                    const response = await fetch('https://api.ipify.org?format=json', {
                        method: 'GET',
                        mode: 'no-cors'
                    });
                    if (!response.ok) {
                        return 'unknown';
                    }
                    const data = await response.json();
                    return data.ip || 'unknown';
                } catch (e) {
                    return 'unknown';
                }
            })()
        "#;

/// The address an evaluation of [`IP_SCRIPT`] reports, or `unknown`.
pub open spec fn ip_spec(response: Json) -> Seq<char> {
    match result_value_str(response) {
        Some(s) if s != "unknown"@ && s.len() > 0 => s,
        _ => "unknown"@,
    }
}

pub fn ip_from(response: &JsonValue) -> (r: String)
    ensures
        r@ == ip_spec(response@),
{
    match result_value_string(response) {
        Some(s) => {
            if !str_eq(s.as_str(), "unknown") && s.as_str().unicode_len() > 0 {
                s
            } else {
                String::from_str("unknown")
            }
        },
        None => String::from_str("unknown"),
    }
}

/// A failed step ends a clearance solve with its own error; the solve goes on
/// to wait for clearance only once the page has loaded, and waits for the load,
/// for at most the solver's timeout, only after navigating succeeded.
pub proof fn lemma_failed_step_ends_clearance_solve(
    stage: ClearanceStage,
    event: ClearanceEvent,
    timeout: Duration,
)
    requires
        clearance_event_fits(stage, event),
    ensures
        (clearance_next(stage, event, timeout).1 is AwaitClearance) <==> (event matches ClearanceEvent::Loaded(
            Ok(_),
        )),
        event matches ClearanceEvent::Navigated(Err(e)) ==> clearance_next(stage, event, timeout)
            == (None::<ClearanceStage>, ClearanceAction::Fail(e)),
        event matches ClearanceEvent::Loaded(Err(e)) ==> clearance_next(stage, event, timeout)
            == (None::<ClearanceStage>, ClearanceAction::Fail(e)),
        (clearance_next(stage, event, timeout).1 matches ClearanceAction::WaitLoad(d)) <==> (
        event matches ClearanceEvent::Navigated(Ok(_))),
        clearance_next(stage, event, timeout).1 matches ClearanceAction::WaitLoad(d) ==> d == timeout,
{
}

} // verus!
