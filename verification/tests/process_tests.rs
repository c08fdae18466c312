use capsolver::api::handlers::{
    handler_step, HandlerAction, HandlerEvent, HandlerStage,
    health_response, iuam_reply, turnstile_reply, HandlerOutcome, STATUS_BAD_REQUEST, STATUS_OK,
    STATUS_UNAVAILABLE,
};
use capsolver::browser::pool::{
    attach_params, create_context_params, create_target_params, dispose_params,
    no_connection_error, opened_page, page_start, page_step, required_id, PageStep,
};
use capsolver::browser::process::{
    chrome_args, dead_processes, devtools_timeout_error, devtools_version_url, devtools_ws_url,
    profile_dir_name, spawn_error, ProcessProbe,
};
use capsolver::config::{Config, EnvValues};
use capsolver::json::JsonValue;
use capsolver::{CapacityStats, IuamResult, PoolError};
use std::collections::HashMap;

fn s(text: &str) -> JsonValue {
    JsonValue::Str(text.to_string())
}

fn obj(entries: Vec<(&str, JsonValue)>) -> JsonValue {
    JsonValue::Object(entries.into_iter().map(|(k, v)| (k.to_string(), v)).collect())
}

#[test]
fn chrome_is_started_with_the_configured_flags() {
    let mut config = Config::from_env_values(&EnvValues::unset());
    assert!(!config.disable_sandbox);
    assert!(!chrome_args(&config, 9223, "/tmp/profile").contains(&"--no-sandbox".to_string()));
    config.disable_sandbox = true;
    config.user_agent = Some("UA/1".to_string());
    let args = chrome_args(&config, 9223, "/tmp/profile");
    assert_eq!(
        args,
        vec![
            "--headless=new",
            "--remote-debugging-port=9223",
            "--remote-debugging-address=127.0.0.1",
            "--user-data-dir=/tmp/profile",
            "--disable-gpu",
            "--disable-dev-shm-usage",
            "--no-first-run",
            "--no-default-browser-check",
            "--disable-default-apps",
            "--disable-background-networking",
            "--disable-backgrounding-occluded-windows",
            "--disable-renderer-backgrounding",
            "--window-size=1920,1080",
            "--no-sandbox",
            "--user-agent=UA/1",
        ]
    );
    config.headless = false;
    config.disable_sandbox = false;
    config.user_agent = None;
    let args = chrome_args(&config, 0, "d");
    assert_eq!(args.len(), 12);
    assert_eq!(args[0], "--remote-debugging-port=0");
}

#[test]
fn profile_directories_are_named_per_process() {
    let name = profile_dir_name(3);
    assert!(name.starts_with("capsolver-chrome-3-"));
    assert_eq!(name.len(), "capsolver-chrome-3-".len() + 36);
    assert_ne!(profile_dir_name(3), name);
}

#[test]
fn devtools_endpoint_and_reply() {
    assert_eq!(devtools_version_url(9222), "http://127.0.0.1:9222/json/version");
    let body = obj(vec![("webSocketDebuggerUrl", s("ws://127.0.0.1:9222/devtools/browser/x"))]);
    assert_eq!(devtools_ws_url(&body).unwrap(), "ws://127.0.0.1:9222/devtools/browser/x");
    assert_eq!(
        devtools_ws_url(&obj(vec![])).unwrap_err(),
        "devtools response had no webSocketDebuggerUrl"
    );
    assert_eq!(
        devtools_timeout_error(9222, "connection refused").message(),
        "Failed to spawn Chrome process: port 9222: connection refused"
    );
    let missing = spawn_error("/nonexistent/chrome", "No such file or directory (os error 2)");
    assert!(missing.message().contains("/nonexistent/chrome"));
}

#[test]
fn dead_processes_are_those_that_exited() {
    let probes = vec![
        ProcessProbe { index: 0, port: 9222, has_child: true, alive: true },
        ProcessProbe { index: 1, port: 9223, has_child: true, alive: false },
        ProcessProbe { index: 2, port: 9224, has_child: false, alive: false },
        ProcessProbe { index: 3, port: 9225, has_child: true, alive: false },
    ];
    assert_eq!(dead_processes(&probes), vec![(1, 9223), (3, 9225)]);
}

#[test]
fn page_creation_commands() {
    let with_proxy = create_context_params(Some("http://proxy:8080"));
    assert!(matches!(with_proxy.get("disposeOnDetach"), Some(JsonValue::Bool(false))));
    assert_eq!(with_proxy.get("proxyServer").and_then(|v| v.as_str()), Some("http://proxy:8080"));
    assert!(create_context_params(None).get("proxyServer").is_none());

    let target = create_target_params("BC1");
    assert_eq!(target.get("url").and_then(|v| v.as_str()), Some("about:blank"));
    assert_eq!(target.get("browserContextId").and_then(|v| v.as_str()), Some("BC1"));

    let attach = attach_params("T1");
    assert_eq!(attach.get("targetId").and_then(|v| v.as_str()), Some("T1"));
    assert!(matches!(attach.get("flatten"), Some(JsonValue::Bool(true))));

    assert_eq!(dispose_params("BC1").get("browserContextId").and_then(|v| v.as_str()), Some("BC1"));

    let reply = obj(vec![("targetId", s("T9"))]);
    assert_eq!(required_id(&reply, "targetId", "createTarget returned no id").unwrap(), "T9");
    match required_id(&obj(vec![]), "targetId", "createTarget returned no id") {
        Err(PoolError::CdpProtocolError(m)) => assert_eq!(m, "createTarget returned no id"),
        other => panic!("unexpected {:?}", other),
    }
    assert_eq!(
        no_connection_error(1).message(),
        "Browser process crashed: process 1 has no live CDP connection"
    );
}

#[test]
fn opened_pages_get_fresh_ids() {
    let context_id = "slot-1".to_string();
    let page = opened_page("about:blank", &context_id);
    assert_eq!(page.url, "about:blank");
    assert_eq!(page.context_id, "slot-1");
    assert_eq!(page.page_id.len(), 36);
    assert_ne!(opened_page("about:blank", &context_id).page_id, page.page_id);
}

#[test]
fn health_report_copies_the_capacity() {
    let stats = CapacityStats { total: 6, available: 4, active: 2, processes: 2 };
    let report = health_response(&stats, "2024-01-01T00:00:00Z".to_string());
    assert_eq!(report.status, "healthy");
    assert_eq!(report.capacity.total, 6);
    assert_eq!(report.capacity.available, 4);
    assert_eq!(report.capacity.active, 2);
    assert_eq!(report.capacity.processes, 2);
}

#[test]
fn turnstile_answers() {
    let (code, body) = turnstile_reply(HandlerOutcome::Solved("tok".to_string()), 12, "t".to_string());
    assert_eq!(code, STATUS_OK);
    assert_eq!(body.status, "success");
    assert_eq!(body.token.as_deref(), Some("tok"));
    assert_eq!(body.error, None);
    assert_eq!(body.elapsed_ms, 12);

    let (code, body) = turnstile_reply(HandlerOutcome::AcquireFailed("full".to_string()), 1, "t".to_string());
    assert_eq!(code, STATUS_UNAVAILABLE);
    assert_eq!(body.status, "failed");
    assert_eq!(body.error.as_deref(), Some("full"));
    assert_eq!(code, 503);

    let (code, _) = turnstile_reply(HandlerOutcome::PageFailed("x".to_string()), 1, "t".to_string());
    assert_eq!(code, 503);
    let (code, body) = turnstile_reply(HandlerOutcome::SolveFailed("bad".to_string()), 1, "t".to_string());
    assert_eq!(code, STATUS_BAD_REQUEST);
    assert_eq!(code, 400);
    assert_eq!(body.token, None);
}

#[test]
fn iuam_answers() {
    let mut cookies = HashMap::new();
    cookies.insert("cf_clearance".to_string(), "c".to_string());
    let result = IuamResult {
        cf_clearance: "c".to_string(),
        user_agent: "UA".to_string(),
        cookies,
        ip: "1.2.3.4".to_string(),
    };
    let (code, body) = iuam_reply(HandlerOutcome::Solved(result), 5, "t".to_string());
    assert_eq!(code, 200);
    assert_eq!(body.status, "success");
    assert_eq!(body.cf_clearance.as_deref(), Some("c"));
    assert_eq!(body.user_agent.as_deref(), Some("UA"));
    assert_eq!(body.ip.as_deref(), Some("1.2.3.4"));
    assert_eq!(body.cookies.as_ref().map(|c| c.len()), Some(1));

    let (code, body) = iuam_reply(HandlerOutcome::SolveFailed("Timeout waiting for token".to_string()), 5, "t".to_string());
    assert_eq!(code, 400);
    assert_eq!(body.status, "failed");
    assert!(body.cookies.is_none());
    assert_eq!(body.error.as_deref(), Some("Timeout waiting for token"));
}

#[test]
fn pool_error_messages_include_underlying_errors() {
    let io = PoolError::IoError(std::io::Error::new(std::io::ErrorKind::Other, "disk full"));
    assert_eq!(io.message(), "IO error: disk full");
    let parse_error = serde_json::from_str::<serde_json::Value>("{").unwrap_err();
    let text = parse_error.to_string();
    let json = PoolError::JsonError(parse_error);
    assert_eq!(json.message(), format!("JSON error: {}", text));
    assert_eq!(PoolError::CapacityExhausted.message(), "Pool capacity exhausted");
    assert_eq!(PoolError::ContextNotFound.message(), "Context not found");
}

#[test]
fn opening_a_page_walks_through_the_target_commands() {
    let (stage, step) = page_start(Some("http://proxy:1"));
    let PageStep::Send(method, params) = step else { panic!("must start with a command") };
    assert_eq!(method, "Target.createBrowserContext");
    assert_eq!(params.get("proxyServer").and_then(|v| v.as_str()), Some("http://proxy:1"));

    let (stage, step) = page_step(stage, &obj(vec![("browserContextId", s("BC"))]));
    let PageStep::RecordThenSend(recorded, method, params) = step else {
        panic!("the context must be recorded")
    };
    assert_eq!(recorded, "BC");
    assert_eq!(method, "Target.createTarget");
    assert_eq!(params.get("browserContextId").and_then(|v| v.as_str()), Some("BC"));

    let (stage, step) = page_step(stage, &obj(vec![("targetId", s("T"))]));
    let PageStep::Send(method, params) = step else { panic!("attach must follow") };
    assert_eq!(method, "Target.attachToTarget");
    assert_eq!(params.get("targetId").and_then(|v| v.as_str()), Some("T"));

    let (_, step) = page_step(stage, &obj(vec![("sessionId", s("S"))]));
    let PageStep::Attached(session, target) = step else { panic!("attached") };
    assert_eq!(session, "S");
    assert_eq!(target, "T");
}

#[test]
fn opening_a_page_fails_on_missing_ids() {
    let (stage, _) = page_start(None);
    match page_step(stage, &obj(vec![])).1 {
        PageStep::Fail(e) => assert_eq!(e.message(), "CDP protocol error: createBrowserContext returned no id"),
        _ => panic!("a reply without id must fail"),
    }
    let (stage, _) = page_start(None);
    let (stage, _) = page_step(stage, &obj(vec![("browserContextId", s("BC"))]));
    match page_step(stage, &obj(vec![("targetId", JsonValue::Null)])).1 {
        PageStep::Fail(e) => assert_eq!(e.message(), "CDP protocol error: createTarget returned no id"),
        _ => panic!("a reply without id must fail"),
    }
}

fn drive(events: Vec<HandlerEvent<String>>, config: &Config) -> (Vec<&'static str>, Option<HandlerOutcome<String>>) {
    let mut stage = HandlerStage::Acquiring;
    let mut actions = Vec::new();
    for event in events {
        let (next, action) = handler_step(stage, event, config);
        stage = next;
        match action {
            HandlerAction::OpenPage => actions.push("open"),
            HandlerAction::Solve(timeout) => {
                assert_eq!(timeout, config.solve_timeout_duration());
                actions.push("solve");
            }
            HandlerAction::Release => actions.push("release"),
            HandlerAction::Reply(outcome) => return (actions, Some(outcome)),
        }
    }
    (actions, None)
}

#[test]
fn a_request_gives_its_slot_back_on_every_path() {
    let config = Config::from_env_values(&EnvValues::unset());
    let (actions, outcome) = drive(vec![HandlerEvent::Acquired(Err("full".to_string()))], &config);
    assert!(actions.is_empty());
    assert!(matches!(outcome, Some(HandlerOutcome::AcquireFailed(m)) if m == "full"));

    let (actions, outcome) = drive(
        vec![
            HandlerEvent::Acquired(Ok(())),
            HandlerEvent::PageOpened(Err("no page".to_string())),
            HandlerEvent::Released,
        ],
        &config,
    );
    assert_eq!(actions, vec!["open", "release"]);
    assert!(matches!(outcome, Some(HandlerOutcome::PageFailed(m)) if m == "no page"));

    let (actions, outcome) = drive(
        vec![
            HandlerEvent::Acquired(Ok(())),
            HandlerEvent::PageOpened(Ok(())),
            HandlerEvent::SolveEnded(Err("Timeout waiting for token".to_string())),
            HandlerEvent::Released,
        ],
        &config,
    );
    assert_eq!(actions, vec!["open", "solve", "release"]);
    assert!(matches!(outcome, Some(HandlerOutcome::SolveFailed(_))));

    let (actions, outcome) = drive(
        vec![
            HandlerEvent::Acquired(Ok(())),
            HandlerEvent::PageOpened(Ok(())),
            HandlerEvent::SolveEnded(Ok("token".to_string())),
            HandlerEvent::Released,
        ],
        &config,
    );
    assert_eq!(actions, vec!["open", "solve", "release"]);
    assert!(matches!(outcome, Some(HandlerOutcome::Solved(t)) if t == "token"));
}
