use capsolver::browser::cdp::{
    build_command, call_result, cookies_in, evaluate_params, evaluate_result, fulfill_params,
    navigate_params, navigate_result, navigation_poll, next_message_id, page_loaded, route_incoming,
    selector_script, user_agent_result, CallOutcome, Incoming, MessageIds,
};
use capsolver::encoding::json_quote;
use capsolver::json::{JsonNumber, JsonValue};
use capsolver::PoolError;

fn s(text: &str) -> JsonValue {
    JsonValue::Str(text.to_string())
}

fn obj(entries: Vec<(&str, JsonValue)>) -> JsonValue {
    JsonValue::Object(entries.into_iter().map(|(k, v)| (k.to_string(), v)).collect())
}

#[test]
fn test_message_id_increments() {
    let mut ids = MessageIds::new();
    let id1 = next_message_id(&mut ids);
    let id2 = next_message_id(&mut ids);
    assert!(id2 > id1);
}

#[test]
fn test_cdp_command_json() {
    let command = build_command(1, "Page.navigate", navigate_params("https://example.com"), None);

    assert_eq!(command.get("method").and_then(|v| v.as_str()), Some("Page.navigate"));
    assert_eq!(
        command.get("params").and_then(|p| p.get("url")).and_then(|v| v.as_str()),
        Some("https://example.com")
    );
}

/// The selector is interpolated into a script, so it must land as a single
/// double-quoted JS literal with no way to close it early.
#[test]
fn test_selector_is_encoded_as_js_literal() {
    for hostile in [
        r#"a") ; alert(1); //"#,
        r#"a\") ; alert(1); //"#,
        "a\n) ; alert(1); //",
    ] {
        let encoded = json_quote(hostile).unwrap();

        assert!(encoded.starts_with('"') && encoded.ends_with('"'));
        assert!(
            !encoded.contains('\n'),
            "newlines must be escaped, not literal: {}",
            encoded
        );

        // The only unescaped quotes are the delimiters themselves.
        let unescaped_quotes = encoded
            .char_indices()
            .filter(|(i, c)| {
                *c == '"'
                    && encoded[..*i].chars().rev().take_while(|p| *p == '\\').count() % 2 == 0
            })
            .count();
        assert_eq!(unescaped_quotes, 2, "literal was breakable: {}", encoded);
    }
}

#[test]
fn json_quote_escapes() {
    assert_eq!(json_quote("a\"b\\c\n\t\u{1}").unwrap(), "\"a\\\"b\\\\c\\n\\t\\u0001\"");
    assert_eq!(json_quote("é/").unwrap(), "\"é/\"");
}

#[test]
fn selector_script_embeds_a_literal() {
    assert_eq!(
        selector_script("div#x").unwrap(),
        "document.querySelector(\"div#x\")?.outerHTML ?? null"
    );
}

#[test]
fn commands_carry_the_session() {
    let command = build_command(7, "Runtime.evaluate", evaluate_params("1+1"), Some("SESSION"));
    assert_eq!(command.get("id").and_then(|v| v.as_u64()), Some(7));
    assert_eq!(command.get("sessionId").and_then(|v| v.as_str()), Some("SESSION"));
    let params = command.get("params").unwrap();
    assert_eq!(params.get("expression").and_then(|v| v.as_str()), Some("1+1"));
    assert!(matches!(params.get("awaitPromise"), Some(JsonValue::Bool(true))));
    let plain = build_command(8, "Page.enable", obj(vec![]), None);
    assert!(plain.get("sessionId").is_none());
}

#[test]
fn replies_and_events_are_routed() {
    let reply = obj(vec![
        ("id", JsonValue::Number(JsonNumber::PosInt(3))),
        ("result", obj(vec![("frameId", s("F"))])),
    ]);
    match route_incoming(reply) {
        Incoming::Reply(3, Ok(v)) => assert_eq!(v.get("frameId").and_then(|x| x.as_str()), Some("F")),
        _ => panic!("a reply with a result"),
    }
    let failure = obj(vec![
        ("id", JsonValue::Number(JsonNumber::PosInt(4))),
        ("error", obj(vec![("code", JsonValue::Number(JsonNumber::NegInt(-32000))), ("message", s("boom"))])),
    ]);
    match route_incoming(failure) {
        Incoming::Reply(4, Err(m)) => assert_eq!(m, "boom"),
        _ => panic!("a failed reply"),
    }
    let anonymous = obj(vec![("id", JsonValue::Number(JsonNumber::PosInt(5))), ("error", obj(vec![]))]);
    match route_incoming(anonymous) {
        Incoming::Reply(5, Err(m)) => assert_eq!(m, "unknown CDP error"),
        _ => panic!("a failed reply without message"),
    }
    let bare = obj(vec![("id", JsonValue::Number(JsonNumber::PosInt(6)))]);
    assert!(matches!(route_incoming(bare), Incoming::Reply(6, Ok(JsonValue::Null))));
    let event = obj(vec![("method", s("Page.loadEventFired")), ("params", obj(vec![]))]);
    assert!(matches!(route_incoming(event), Incoming::Event(_)));
    assert!(matches!(route_incoming(obj(vec![("foo", s("bar"))])), Incoming::Ignore));
    let negative_id = obj(vec![("id", JsonValue::Number(JsonNumber::NegInt(-1))), ("method", s("X"))]);
    assert!(matches!(route_incoming(negative_id), Incoming::Event(_)));
}

#[test]
fn call_outcomes_become_errors() {
    assert!(matches!(call_result("M", CallOutcome::Replied(Ok(JsonValue::Null))), Ok(JsonValue::Null)));
    match call_result("Page.navigate", CallOutcome::Replied(Err("bad".to_string()))) {
        Err(PoolError::CdpProtocolError(m)) => assert_eq!(m, "Page.navigate: bad"),
        other => panic!("unexpected {:?}", other),
    }
    match call_result("Page.navigate", CallOutcome::ReplyDropped) {
        Err(PoolError::CdpConnectionError(m)) => assert_eq!(m, "Page.navigate: reply channel dropped"),
        other => panic!("unexpected {:?}", other),
    }
    match call_result("Page.navigate", CallOutcome::TimedOut) {
        Err(e) => assert_eq!(e.message(), "Timeout: Page.navigate"),
        other => panic!("unexpected {:?}", other),
    }
    match call_result("X", CallOutcome::WriterGone) {
        Err(e) => assert_eq!(e.message(), "CDP connection error: CDP writer task is gone"),
        other => panic!("unexpected {:?}", other),
    }
}

#[test]
fn navigation_and_evaluation_results() {
    assert_eq!(navigate_result("https://a.b", &obj(vec![("frameId", s("F"))])).unwrap(), "https://a.b");
    assert_eq!(navigate_result("https://a.b", &obj(vec![("errorText", s(""))])).unwrap(), "https://a.b");
    match navigate_result("https://a.b", &obj(vec![("errorText", s("net::ERR_NAME_NOT_RESOLVED"))])) {
        Err(PoolError::NavigationFailed(m)) => assert_eq!(m, "https://a.b: net::ERR_NAME_NOT_RESOLVED"),
        other => panic!("unexpected {:?}", other),
    }
    let thrown = obj(vec![(
        "exceptionDetails",
        obj(vec![("text", s("Uncaught")), ("exception", obj(vec![("description", s("Error: boom"))]))]),
    )]);
    match evaluate_result(thrown) {
        Err(PoolError::ScriptExecutionFailed(m)) => assert_eq!(m, "Error: boom"),
        other => panic!("unexpected {:?}", other),
    }
    let text_only = obj(vec![("exceptionDetails", obj(vec![("text", s("Uncaught"))]))]);
    match evaluate_result(text_only) {
        Err(PoolError::ScriptExecutionFailed(m)) => assert_eq!(m, "Uncaught"),
        other => panic!("unexpected {:?}", other),
    }
    match evaluate_result(obj(vec![("exceptionDetails", obj(vec![]))])) {
        Err(PoolError::ScriptExecutionFailed(m)) => assert_eq!(m, "script threw"),
        other => panic!("unexpected {:?}", other),
    }
    let fine = obj(vec![("result", obj(vec![("value", JsonValue::Number(JsonNumber::PosInt(42)))]))]);
    let back = evaluate_result(fine).unwrap();
    assert_eq!(back.get("result").and_then(|r| r.get("value")).and_then(|v| v.as_u64()), Some(42));
}

#[test]
fn page_state_and_user_agent() {
    let state = |v: &str| obj(vec![("result", obj(vec![("value", s(v))]))]);
    assert!(page_loaded(&state("complete")));
    assert!(page_loaded(&state("interactive")));
    assert!(!page_loaded(&state("loading")));
    assert!(!page_loaded(&obj(vec![])));
    assert_eq!(user_agent_result(&state("Mozilla/5.0")).unwrap(), "Mozilla/5.0");
    assert!(matches!(user_agent_result(&obj(vec![])), Err(PoolError::ScriptExecutionFailed(_))));
}

#[test]
fn cookies_are_read_from_the_listing() {
    let listing = obj(vec![("cookies", JsonValue::Array(vec![obj(vec![("name", s("a"))])]))]);
    assert_eq!(cookies_in(listing).len(), 1);
    assert!(cookies_in(obj(vec![])).is_empty());
    assert!(cookies_in(obj(vec![("cookies", s("x"))])).is_empty());
}

#[test]
fn fulfilled_body_is_base64() {
    let params = fulfill_params("R", "hello", "text/html; charset=utf-8");
    assert_eq!(params.get("body").and_then(|v| v.as_str()), Some("aGVsbG8="));
    assert_eq!(params.get("requestId").and_then(|v| v.as_str()), Some("R"));
    assert_eq!(params.get("responseCode").and_then(|v| v.as_u64()), Some(200));
    let two = fulfill_params("R", "hi", "t");
    assert_eq!(two.get("body").and_then(|v| v.as_str()), Some("aGk="));
    let three = fulfill_params("R", "abc", "t");
    assert_eq!(three.get("body").and_then(|v| v.as_str()), Some("YWJj"));
}

#[test]
fn navigation_wait_ends_on_load_or_deadline() {
    let ready = |state: &str| obj(vec![("result", obj(vec![("type", s("string")), ("value", s(state))]))]);
    let loaded = ready("complete");
    let loading = ready("loading");

    assert!(matches!(navigation_poll(Some(&loaded), false), Some(Ok(()))));
    assert!(matches!(navigation_poll(Some(&ready("interactive")), true), Some(Ok(()))));
    assert!(navigation_poll(Some(&loading), false).is_none());
    assert!(navigation_poll(None, false).is_none());
    match navigation_poll(Some(&loading), true) {
        Some(Err(e)) => assert_eq!(e.message(), "Timeout: wait_for_navigation"),
        _ => panic!("a passed deadline ends the wait with a timeout"),
    }
    assert!(matches!(navigation_poll(None, true), Some(Err(_))));
}
