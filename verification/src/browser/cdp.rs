//! Messages of the Chrome DevTools Protocol: building commands, routing what
//! arrives on the connection, and reading replies.
use vstd::prelude::*;
use vstd::string::*;
use crate::error::{PoolError, PoolFault};
use vstd::utf8::*;
use crate::encoding::{base64_fits, base64_spec, base64_standard, json_quote, json_quote_spec};
use crate::json::{
    Json, JsonNum, JsonNumber, JsonValue, entries_model, get_opt, get_str, items_model,
    push_entry, str_of,
};
use crate::solvers::error::prefixed;

verus! {

/// Source of command ids for one connection.
pub struct MessageIds {
    next: u64,
}

impl MessageIds {
    /// The id the next command gets.
    pub closed spec fn upcoming(&self) -> u64 {
        self.next
    }

    /// Ids start at 1.
    pub fn new() -> (r: MessageIds)
        ensures
            r.upcoming() == 1,
    {
        MessageIds { next: 1 }
    }
}

/// Takes the next command id. Ids count up by one, wrapping at `u64::MAX`.
pub fn next_message_id(ids: &mut MessageIds) -> (r: u64)
    ensures
        r == old(ids).upcoming(),
        final(ids).upcoming() == (if r == u64::MAX {
            0
        } else {
            (r + 1) as u64
        }),
{
    let r = ids.next;
    ids.next = r.wrapping_add(1);
    r
}

/// Two ids taken one after the other increase, unless the first is the last value.
pub proof fn lemma_message_ids_increase(first: u64, after: u64)
    requires
        first < u64::MAX,
        after == (if first == u64::MAX {
            0
        } else {
            (first + 1) as u64
        }),
    ensures
        first < after,
{
}

/// What arrived on the connection.
pub enum Incoming {
    /// The reply to command `id`: its result, or the protocol's error message.
    Reply(u64, Result<JsonValue, String>),
    /// A protocol event, passed on whole.
    Event(JsonValue),
    /// Anything else.
    Ignore,
}

/// Model of [`Incoming`].
pub enum IncomingView {
    Reply(u64, Result<Json, Seq<char>>),
    Event(Json),
    Ignore,
}

impl View for Incoming {
    type V = IncomingView;

    open spec fn view(&self) -> IncomingView {
        match self {
            Incoming::Reply(id, Ok(v)) => IncomingView::Reply(*id, Ok(v@)),
            Incoming::Reply(id, Err(m)) => IncomingView::Reply(*id, Err(m@)),
            Incoming::Event(v) => IncomingView::Event(v@),
            Incoming::Ignore => IncomingView::Ignore,
        }
    }
}

/// A message with a numeric `id` is a reply: an `error` member makes it a failure
/// carrying the error's `message` (or "unknown CDP error"), otherwise it carries
/// its `result` (or `null`). Without an id, a message with a `method` is an event.
pub open spec fn route(msg: Json) -> IncomingView {
    match get_opt(Some(msg), "id"@) {
        Some(idv) if idv.as_u64() is Some => IncomingView::Reply(
            idv.as_u64().unwrap(),
            match msg.get("error"@) {
                Some(err) => Err(
                    match get_str(Some(err), "message"@) {
                        Some(m) => m,
                        None => "unknown CDP error"@,
                    },
                ),
                None => Ok(
                    match msg.get("result"@) {
                        Some(r) => r,
                        None => Json::Null,
                    },
                ),
            },
        ),
        _ => if msg.get("method"@) is Some {
            IncomingView::Event(msg)
        } else {
            IncomingView::Ignore
        },
    }
}

/// Sorts a message that arrived on the connection.
pub fn route_incoming(msg: JsonValue) -> (r: Incoming)
    ensures
        r@ == route(msg@),
{
    let id = match msg.get("id") {
        Some(v) => v.as_u64(),
        None => None,
    };
    match id {
        Some(id) => {
            let failure = match msg.get("error") {
                Some(err) => {
                    let text = match err.get("message") {
                        Some(m) => match m.as_str() {
                            Some(s) => String::from_str(s),
                            None => String::from_str("unknown CDP error"),
                        },
                        None => String::from_str("unknown CDP error"),
                    };
                    Some(text)
                },
                None => None,
            };
            match failure {
                Some(text) => Incoming::Reply(id, Err(text)),
                None => {
                    let result = match msg.take("result") {
                        Some(v) => v,
                        None => JsonValue::Null,
                    };
                    Incoming::Reply(id, Ok(result))
                },
            }
        },
        None => {
            if msg.get("method").is_some() {
                Incoming::Event(msg)
            } else {
                Incoming::Ignore
            }
        },
    }
}

/// The command object `{"id", "method", "params"}`, plus `"sessionId"` when the
/// command targets an attached page.
pub open spec fn command(id: u64, method: Seq<char>, params: Json, session_id: Option<Seq<char>>) -> Json {
    let base = seq![
        ("id"@, Json::Number(JsonNum::PosInt(id))),
        ("method"@, Json::Str(method)),
        ("params"@, params),
    ];
    match session_id {
        Some(s) => Json::Object(base.push(("sessionId"@, Json::Str(s)))),
        None => Json::Object(base),
    }
}

pub open spec fn str_opt_view(o: Option<&str>) -> Option<Seq<char>> {
    match o {
        Some(s) => Some(s@),
        None => None,
    }
}

/// Builds the message for a command.
pub fn build_command(id: u64, method: &str, params: JsonValue, session_id: Option<&str>) -> (r: JsonValue)
    ensures
        r@ == command(id, method@, params@, str_opt_view(session_id)),
{
    let ghost p = params@;
    let mut entries: Vec<(String, JsonValue)> = Vec::new();
    push_entry(&mut entries, "id", JsonValue::Number(JsonNumber::PosInt(id)));
    push_entry(&mut entries, "method", JsonValue::string(method));
    push_entry(&mut entries, "params", params);
    let ghost base = entries_model(entries@);
    assert(base =~= seq![
        ("id"@, Json::Number(JsonNum::PosInt(id))),
        ("method"@, Json::Str(method@)),
        ("params"@, p),
    ]);
    if let Some(s) = session_id {
        push_entry(&mut entries, "sessionId", JsonValue::string(s));
    }
    JsonValue::object(entries)
}

/// How waiting for a reply ended.
pub enum CallOutcome {
    /// The connection could not take the command.
    WriterGone,
    /// The reply arrived.
    Replied(Result<JsonValue, String>),
    /// The connection went away before the reply.
    ReplyDropped,
    /// No reply came in time.
    TimedOut,
}

/// Model of [`CallOutcome`].
pub enum CallOutcomeView {
    WriterGone,
    Replied(Result<Json, Seq<char>>),
    ReplyDropped,
    TimedOut,
}

impl View for CallOutcome {
    type V = CallOutcomeView;

    open spec fn view(&self) -> CallOutcomeView {
        match self {
            CallOutcome::WriterGone => CallOutcomeView::WriterGone,
            CallOutcome::Replied(Ok(v)) => CallOutcomeView::Replied(Ok(v@)),
            CallOutcome::Replied(Err(m)) => CallOutcomeView::Replied(Err(m@)),
            CallOutcome::ReplyDropped => CallOutcomeView::ReplyDropped,
            CallOutcome::TimedOut => CallOutcomeView::TimedOut,
        }
    }
}

/// What a command call returns for each way the wait can end.
pub open spec fn call_result_spec(method: Seq<char>, outcome: CallOutcomeView) -> Result<Json, PoolFault> {
    match outcome {
        CallOutcomeView::WriterGone => Err(PoolFault::CdpConnectionError("CDP writer task is gone"@)),
        CallOutcomeView::Replied(Ok(v)) => Ok(v),
        CallOutcomeView::Replied(Err(m)) => Err(PoolFault::CdpProtocolError(method + ": "@ + m)),
        CallOutcomeView::ReplyDropped => Err(
            PoolFault::CdpConnectionError(method + ": reply channel dropped"@),
        ),
        CallOutcomeView::TimedOut => Err(PoolFault::Timeout(method)),
    }
}

pub open spec fn result_view(r: Result<JsonValue, PoolError>) -> Result<Json, PoolFault> {
    match r {
        Ok(v) => Ok(v@),
        Err(e) => Err(e@),
    }
}

/// `a`, then `sep`, then `b`.
pub fn joined(a: &str, sep: &str, b: &str) -> (r: String)
    ensures
        r@ == a@ + sep@ + b@,
{
    let mut r = String::from_str(a);
    r.append(sep);
    r.append(b);
    r
}

/// Turns the end of a command call into its result.
pub fn call_result(method: &str, outcome: CallOutcome) -> (r: Result<JsonValue, PoolError>)
    ensures
        result_view(r) == call_result_spec(method@, outcome@),
{
    match outcome {
        CallOutcome::WriterGone => Err(
            PoolError::CdpConnectionError(String::from_str("CDP writer task is gone")),
        ),
        CallOutcome::Replied(Ok(v)) => Ok(v),
        CallOutcome::Replied(Err(m)) => Err(
            PoolError::CdpProtocolError(joined(method, ": ", m.as_str())),
        ),
        CallOutcome::ReplyDropped => Err(
            PoolError::CdpConnectionError(prefixed(method, ": reply channel dropped")),
        ),
        CallOutcome::TimedOut => Err(PoolError::Timeout(String::from_str(method))),
    }
}

/// An object with one string member.
fn object_with_str(key: &str, value: &str) -> (r: JsonValue)
    ensures
        r@ == Json::Object(seq![(key@, Json::Str(value@))]),
{
    let mut entries: Vec<(String, JsonValue)> = Vec::new();
    push_entry(&mut entries, key, JsonValue::string(value));
    assert(entries_model(entries@) =~= seq![(key@, Json::Str(value@))]);
    JsonValue::object(entries)
}

/// The empty object, the parameters of commands that take none.
pub fn no_params() -> (r: JsonValue)
    ensures
        r@ == Json::Object(Seq::empty()),
{
    let entries: Vec<(String, JsonValue)> = Vec::new();
    assert(entries_model(entries@) =~= Seq::<(Seq<char>, Json)>::empty());
    JsonValue::object(entries)
}

/// Parameters of `Page.navigate`.
pub fn navigate_params(url: &str) -> (r: JsonValue)
    ensures
        r@ == Json::Object(seq![("url"@, Json::Str(url@))]),
{
    object_with_str("url", url)
}

/// Result of `Page.navigate`: failures come back in the payload's `errorText`
/// rather than as a protocol error.
pub open spec fn navigate_result_spec(url: Seq<char>, result: Json) -> Result<Seq<char>, PoolFault> {
    match get_str(Some(result), "errorText"@) {
        Some(t) if t.len() > 0 => Err(PoolFault::NavigationFailed(url + ": "@ + t)),
        _ => Ok(url),
    }
}

pub open spec fn text_result_view(r: Result<String, PoolError>) -> Result<Seq<char>, PoolFault> {
    match r {
        Ok(s) => Ok(s@),
        Err(e) => Err(e@),
    }
}

/// Reads the result of `Page.navigate`.
pub fn navigate_result(url: &str, result: &JsonValue) -> (r: Result<String, PoolError>)
    ensures
        text_result_view(r) == navigate_result_spec(url@, result@),
{
    if let Some(t) = result.get("errorText") {
        if let Some(text) = t.as_str() {
            if text.unicode_len() > 0 {
                return Err(PoolError::NavigationFailed(joined(url, ": ", text)));
            }
        }
    }
    Ok(String::from_str(url))
}

/// Parameters of `Runtime.evaluate`: return the value itself, wait for a promise
/// to settle, and run as if from a user gesture.
pub open spec fn evaluate_params_spec(script: Seq<char>) -> Json {
    Json::Object(
        seq![
            ("expression"@, Json::Str(script)),
            ("returnByValue"@, Json::Bool(true)),
            ("awaitPromise"@, Json::Bool(true)),
            ("userGesture"@, Json::Bool(true)),
        ],
    )
}

pub fn evaluate_params(script: &str) -> (r: JsonValue)
    ensures
        r@ == evaluate_params_spec(script@),
{
    let mut entries: Vec<(String, JsonValue)> = Vec::new();
    push_entry(&mut entries, "expression", JsonValue::string(script));
    push_entry(&mut entries, "returnByValue", JsonValue::Bool(true));
    push_entry(&mut entries, "awaitPromise", JsonValue::Bool(true));
    push_entry(&mut entries, "userGesture", JsonValue::Bool(true));
    assert(entries_model(entries@) =~= evaluate_params_spec(script@)->Object_0);
    JsonValue::object(entries)
}

/// Result of `Runtime.evaluate`: a thrown exception is a failure described by the
/// exception's `description`, else by the details' `text`, else "script threw".
pub open spec fn evaluate_result_spec(result: Json) -> Result<Json, PoolFault> {
    match result.get("exceptionDetails"@) {
        Some(details) => Err(
            PoolFault::ScriptExecutionFailed(
                match get_str(details.get("exception"@), "description"@) {
                    Some(d) => d,
                    None => match get_str(Some(details), "text"@) {
                        Some(t) => t,
                        None => "script threw"@,
                    },
                },
            ),
        ),
        None => Ok(result),
    }
}

/// Reads the result of `Runtime.evaluate`.
pub fn evaluate_result(result: JsonValue) -> (r: Result<JsonValue, PoolError>)
    ensures
        result_view(r) == evaluate_result_spec(result@),
{
    let failure = match result.get("exceptionDetails") {
        Some(details) => {
            let described = match details.get("exception") {
                Some(exception) => match exception.get("description") {
                    Some(d) => d.as_str(),
                    None => None,
                },
                None => None,
            };
            let text = match described {
                Some(d) => String::from_str(d),
                None => match details.get("text") {
                    Some(t) => match t.as_str() {
                        Some(t) => String::from_str(t),
                        None => String::from_str("script threw"),
                    },
                    None => String::from_str("script threw"),
                },
            };
            Some(text)
        },
        None => None,
    };
    match failure {
        Some(text) => Err(PoolError::ScriptExecutionFailed(text)),
        None => Ok(result),
    }
}

/// Parameters of `Page.addScriptToEvaluateOnNewDocument`.
pub fn init_script_params(script: &str) -> (r: JsonValue)
    ensures
        r@ == Json::Object(seq![("source"@, Json::Str(script@))]),
{
    object_with_str("source", script)
}

/// The script that returns the outer HTML of the first element matching
/// `selector`, or `null`. The selector enters the script as a JSON string
/// literal, so it cannot break out into code.
pub open spec fn selector_script_spec(selector: Seq<char>) -> Seq<char> {
    "document.querySelector("@ + json_quote_spec(selector) + ")?.outerHTML ?? null"@
}

pub fn selector_script(selector: &str) -> (r: Result<String, PoolError>)
    ensures
        r matches Ok(s) && s@ == selector_script_spec(selector@),
{
    let literal = match json_quote(selector) {
        Ok(l) => l,
        Err(e) => {
            return Err(PoolError::JsonError(e));
        },
    };
    let mut script = String::from_str("document.querySelector(");
    script.append(literal.as_str());
    script.append(")?.outerHTML ?? null");
    Ok(script)
}

/// `response.result.value`, when it is a string.
pub open spec fn result_value_str(response: Json) -> Option<Seq<char>> {
    str_of(get_opt(response.get("result"@), "value"@))
}

pub open spec fn opt_string_view(o: Option<String>) -> Option<Seq<char>> {
    match o {
        Some(s) => Some(s@),
        None => None,
    }
}

/// Reads `response.result.value` as a string.
pub fn result_value_string(response: &JsonValue) -> (r: Option<String>)
    ensures
        opt_string_view(r) == result_value_str(response@),
{
    match response.get("result") {
        Some(result) => match result.get("value") {
            Some(v) => match v.as_str() {
                Some(s) => Some(String::from_str(s)),
                None => None,
            },
            None => None,
        },
        None => None,
    }
}

/// The `cookies` array of a cookie listing, or nothing.
pub open spec fn cookies_spec(result: Json) -> Seq<Json> {
    match result.get("cookies"@) {
        Some(Json::Array(items)) => items,
        _ => Seq::empty(),
    }
}

/// Reads the cookies of `Network.getAllCookies` or `Network.getCookies`.
pub fn cookies_in(result: JsonValue) -> (r: Vec<JsonValue>)
    ensures
        items_model(r@) == cookies_spec(result@),
{
    match result.take("cookies") {
        Some(JsonValue::Array(items)) => {
            assert(items_model(items@) =~= cookies_spec(result@));
            items
        },
        _ => {
            let v: Vec<JsonValue> = Vec::new();
            assert(items_model(v@) =~= Seq::<Json>::empty());
            v
        },
    }
}

/// Parameters of `Network.getCookies`.
pub fn cookies_for_params(urls: &Vec<String>) -> (r: JsonValue)
    ensures
        r@ == Json::Object(
            seq![("urls"@, Json::Array(Seq::new(urls@.len(), |i: int| Json::Str(urls@[i]@))))],
        ),
{
    let mut items: Vec<JsonValue> = Vec::new();
    let mut i: usize = 0;
    assert(items_model(items@) =~= Seq::new(0nat, |k: int| Json::Str(urls@[k]@)));
    while i < urls.len()
        invariant
            i <= urls@.len(),
            items@.len() == i,
            items_model(items@) == Seq::new(i as nat, |k: int| Json::Str(urls@[k]@)),
        decreases urls@.len() - i,
    {
        let item = JsonValue::string(urls[i].as_str());
        let ghost before = items@;
        assert(item@ == Json::Str(urls@[i as int]@));
        items.push(item);
        assert forall|k: int| 0 <= k < i implies items@[k]@ == Json::Str(urls@[k]@) by {
            assert(items@[k] == before[k]);
            assert(items_model(before)[k] == Json::Str(urls@[k]@));
        }
        assert(items_model(items@) =~= Seq::new((i + 1) as nat, |k: int| Json::Str(urls@[k]@)));
        i = i + 1;
    }
    let mut entries: Vec<(String, JsonValue)> = Vec::new();
    push_entry(&mut entries, "urls", JsonValue::array(items));
    let ghost expected = seq![("urls"@, Json::Array(Seq::new(urls@.len(), |i: int| Json::Str(urls@[i]@))))];
    assert(entries_model(entries@) =~= expected);
    JsonValue::object(entries)
}

/// Parameters of `Emulation.setDeviceMetricsOverride` for a desktop viewport.
pub open spec fn viewport_params_spec(width: u32, height: u32) -> Json {
    Json::Object(
        seq![
            ("width"@, Json::Number(JsonNum::PosInt(width as u64))),
            ("height"@, Json::Number(JsonNum::PosInt(height as u64))),
            ("deviceScaleFactor"@, Json::Number(JsonNum::PosInt(1))),
            ("mobile"@, Json::Bool(false)),
        ],
    )
}

pub fn viewport_params(width: u32, height: u32) -> (r: JsonValue)
    ensures
        r@ == viewport_params_spec(width, height),
{
    let mut entries: Vec<(String, JsonValue)> = Vec::new();
    push_entry(&mut entries, "width", JsonValue::Number(JsonNumber::PosInt(width as u64)));
    push_entry(&mut entries, "height", JsonValue::Number(JsonNumber::PosInt(height as u64)));
    push_entry(&mut entries, "deviceScaleFactor", JsonValue::Number(JsonNumber::PosInt(1)));
    push_entry(&mut entries, "mobile", JsonValue::Bool(false));
    assert(entries_model(entries@) =~= viewport_params_spec(width, height)->Object_0);
    JsonValue::object(entries)
}

/// The user agent a `navigator.userAgent` evaluation reports.
pub open spec fn user_agent_spec(response: Json) -> Result<Seq<char>, PoolFault> {
    match result_value_str(response) {
        Some(s) => Ok(s),
        None => Err(PoolFault::ScriptExecutionFailed("navigator.userAgent was not a string"@)),
    }
}

pub fn user_agent_result(response: &JsonValue) -> (r: Result<String, PoolError>)
    ensures
        text_result_view(r) == user_agent_spec(response@),
{
    match result_value_string(response) {
        Some(s) => Ok(s),
        None => Err(
            PoolError::ScriptExecutionFailed(String::from_str("navigator.userAgent was not a string")),
        ),
    }
}

/// Parameters of `Fetch.enable`.
pub fn fetch_enable_params(patterns: JsonValue) -> (r: JsonValue)
    ensures
        r@ == Json::Object(seq![("patterns"@, patterns@)]),
{
    let ghost p = patterns@;
    let mut entries: Vec<(String, JsonValue)> = Vec::new();
    push_entry(&mut entries, "patterns", patterns);
    assert(entries_model(entries@) =~= seq![("patterns"@, p)]);
    JsonValue::object(entries)
}

/// Parameters of `Fetch.fulfillRequest`: status 200, one `Content-Type` header,
/// and the body's UTF-8 bytes in base64.
pub open spec fn fulfill_params_spec(request_id: Seq<char>, body: Seq<char>, content_type: Seq<char>) -> Json {
    Json::Object(
        seq![
            ("requestId"@, Json::Str(request_id)),
            ("responseCode"@, Json::Number(JsonNum::PosInt(200))),
            (
                "responseHeaders"@,
                Json::Array(
                    seq![
                        Json::Object(
                            seq![
                                ("name"@, Json::Str("Content-Type"@)),
                                ("value"@, Json::Str(content_type)),
                            ],
                        ),
                    ],
                ),
            ),
            ("body"@, Json::Str(base64_spec(encode_utf8(body)))),
        ],
    )
}

pub fn fulfill_params(request_id: &str, body: &str, content_type: &str) -> (r: JsonValue)
    requires
        base64_fits(encode_utf8(body@).len()),
    ensures
        r@ == fulfill_params_spec(request_id@, body@, content_type@),
{
    let encoded = base64_standard(body);
    let mut header: Vec<(String, JsonValue)> = Vec::new();
    push_entry(&mut header, "name", JsonValue::string("Content-Type"));
    push_entry(&mut header, "value", JsonValue::string(content_type));
    let ghost hm = entries_model(header@);
    assert(hm =~= seq![("name"@, Json::Str("Content-Type"@)), ("value"@, Json::Str(content_type@))]);
    let header = JsonValue::object(header);
    let mut headers: Vec<JsonValue> = Vec::new();
    headers.push(header);
    let ghost hs = items_model(headers@);
    let headers = JsonValue::array(headers);
    let mut entries: Vec<(String, JsonValue)> = Vec::new();
    push_entry(&mut entries, "requestId", JsonValue::string(request_id));
    push_entry(&mut entries, "responseCode", JsonValue::Number(JsonNumber::PosInt(200)));
    push_entry(&mut entries, "responseHeaders", headers);
    push_entry(&mut entries, "body", JsonValue::Str(encoded));
    assert(hs =~= seq![Json::Object(hm)]);
    assert(entries_model(entries@) =~= fulfill_params_spec(request_id@, body@, content_type@)->Object_0);
    JsonValue::object(entries)
}

/// Parameters of `Fetch.continueRequest`.
pub fn continue_params(request_id: &str) -> (r: JsonValue)
    ensures
        r@ == Json::Object(seq![("requestId"@, Json::Str(request_id@))]),
{
    object_with_str("requestId", request_id)
}

/// Parameters of `Target.detachFromTarget`.
pub fn detach_params(session_id: &str) -> (r: JsonValue)
    ensures
        r@ == Json::Object(seq![("sessionId"@, Json::Str(session_id@))]),
{
    object_with_str("sessionId", session_id)
}

/// A `document.readyState` evaluation shows a loaded page: `complete` or
/// `interactive` (a value that is not a string counts as empty).
pub open spec fn page_loaded_spec(response: Json) -> bool {
    result_value_str(response) == Some("complete"@) || result_value_str(response) == Some(
        "interactive"@,
    )
}

pub fn page_loaded(response: &JsonValue) -> (r: bool)
    ensures
        r == page_loaded_spec(response@),
{
    match result_value_string(response) {
        Some(s) => crate::text::str_eq(s.as_str(), "complete") || crate::text::str_eq(
            s.as_str(),
            "interactive",
        ),
        None => false,
    }
}

/// Milliseconds between two looks at `document.readyState` while waiting for a
/// page to load.
pub const NAVIGATION_POLL_MILLIS: u64 = 100;

/// One look while waiting for a page to load: a loaded page ends the wait
/// successfully; otherwise the wait ends with `Timeout` once the deadline has
/// passed, or goes on (`None`). A failed evaluation (`None`) counts as not loaded.
pub open spec fn navigation_poll_spec(response: Option<Json>, deadline_passed: bool) -> Option<
    Result<(), PoolFault>,
> {
    if response is Some && page_loaded_spec(response->0) {
        Some(Ok(()))
    } else if deadline_passed {
        Some(Err(PoolFault::Timeout("wait_for_navigation"@)))
    } else {
        None
    }
}

pub open spec fn wait_view(r: Option<Result<(), PoolError>>) -> Option<Result<(), PoolFault>> {
    match r {
        Some(Ok(_)) => Some(Ok(())),
        Some(Err(e)) => Some(Err(e@)),
        None => None,
    }
}

/// Decides one round of the wait for a page to load, from the answer to the
/// `document.readyState` evaluation and whether the deadline has passed.
pub fn navigation_poll(response: Option<&JsonValue>, deadline_passed: bool) -> (r: Option<
    Result<(), PoolError>,
>)
    ensures
        wait_view(r) == navigation_poll_spec(
            match response {
                Some(v) => Some(v@),
                None => None,
            },
            deadline_passed,
        ),
{
    let loaded = match response {
        Some(v) => page_loaded(v),
        None => false,
    };
    if loaded {
        Some(Ok(()))
    } else if deadline_passed {
        Some(Err(PoolError::Timeout(String::from_str("wait_for_navigation"))))
    } else {
        None
    }
}

/// `Runtime.evaluate` is asked for the script's value itself (not a handle to
/// it), to wait for a promise the script returns, and to run as from a user
/// gesture; the expression is the script.
pub proof fn lemma_evaluate_asks_for_value(script: Seq<char>)
    ensures
        evaluate_params_spec(script).get("expression"@) == Some(Json::Str(script)),
        evaluate_params_spec(script).get("returnByValue"@) == Some(Json::Bool(true)),
        evaluate_params_spec(script).get("awaitPromise"@) == Some(Json::Bool(true)),
        evaluate_params_spec(script).get("userGesture"@) == Some(Json::Bool(true)),
{
    reveal_strlit("expression");
    reveal_strlit("returnByValue");
    reveal_strlit("awaitPromise");
    reveal_strlit("userGesture");
    let e = evaluate_params_spec(script)->Object_0;
    assert(e[0].0.len() == 10 && e[1].0.len() == 13 && e[2].0.len() == 12 && e[3].0.len() == 11);
    crate::json::lemma_lookup_found(e, "expression"@, 0);
    crate::json::lemma_lookup_found(e, "returnByValue"@, 1);
    crate::json::lemma_lookup_found(e, "awaitPromise"@, 2);
    crate::json::lemma_lookup_found(e, "userGesture"@, 3);
}

} // verus!
