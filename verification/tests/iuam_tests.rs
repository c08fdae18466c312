use capsolver::json::JsonValue;
use capsolver::browser::pool::BrowserContext;
use capsolver::solvers::iuam::{
    iuam_start, ip_from, scan_cookies, user_agent_from, ClearanceAction, ClearanceEvent,
    ClearancePoll, ClearanceStage,
};
use capsolver::solvers::{IuamParams, IuamResult, IuamSolver, SolverError};
use std::collections::HashMap;
use std::time::Duration;

fn s(text: &str) -> JsonValue {
    JsonValue::Str(text.to_string())
}

fn obj(entries: Vec<(&str, JsonValue)>) -> JsonValue {
    JsonValue::Object(entries.into_iter().map(|(k, v)| (k.to_string(), v)).collect())
}

fn cookie(name: &str, value: &str) -> JsonValue {
    obj(vec![("name", s(name)), ("value", s(value)), ("domain", s(".example.com"))])
}

#[test]
fn iuam_integration_tests_test_iuam_solver_creation() {
    let solver = IuamSolver::new();
    assert_eq!(solver.timeout_duration, Duration::from_secs(29));
    assert_eq!(solver.poll_interval, Duration::from_millis(500));
}

#[test]
fn iuam_test_iuam_solver_with_timeout() {
    let solver = IuamSolver::new().with_timeout(Duration::from_secs(60));
    assert_eq!(solver.timeout_duration, Duration::from_secs(60));
}

#[test]
fn iuam_test_iuam_solver_with_poll_interval() {
    let solver = IuamSolver::new().with_poll_interval(Duration::from_millis(1000));
    assert_eq!(solver.poll_interval, Duration::from_millis(1000));
}

#[test]
fn iuam_test_iuam_solver_chained_config() {
    let solver = IuamSolver::new()
        .with_timeout(Duration::from_secs(90))
        .with_poll_interval(Duration::from_millis(1000));

    assert_eq!(solver.timeout_duration, Duration::from_secs(90));
    assert_eq!(solver.poll_interval, Duration::from_millis(1000));
}

#[test]
fn iuam_test_iuam_result_creation() {
    let mut cookies = HashMap::new();
    cookies.insert("test".to_string(), "value".to_string());

    let result = IuamResult {
        cf_clearance: "test_token".to_string(),
        user_agent: "Mozilla/5.0".to_string(),
        cookies,
        ip: "192.168.1.1".to_string(),
    };

    assert_eq!(result.cf_clearance, "test_token");
    assert_eq!(result.user_agent, "Mozilla/5.0");
    assert_eq!(result.ip, "192.168.1.1");
    assert_eq!(result.cookies.len(), 1);
}

#[test]
fn iuam_test_iuam_params_creation() {
    let params = IuamParams {
        url: "https://example.com".to_string(),
        proxy: Some("http://proxy:8080".to_string()),
    };

    assert_eq!(params.url, "https://example.com");
    assert!(params.proxy.is_some());
}

#[test]
fn iuam_integration_tests_test_iuam_solver_default() {
    let solver = IuamSolver::default();
    assert_eq!(solver.timeout_duration, Duration::from_secs(29));
    assert_eq!(solver.poll_interval, Duration::from_millis(500));
}

#[test]
fn iuam_integration_tests_test_iuam_solver_with_timeout() {
    let solver = IuamSolver::new().with_timeout(Duration::from_secs(60));
    assert_eq!(solver.timeout_duration, Duration::from_secs(60));
}

#[test]
fn iuam_integration_tests_test_iuam_solver_with_poll_interval() {
    let solver = IuamSolver::new().with_poll_interval(Duration::from_millis(1000));
    assert_eq!(solver.poll_interval, Duration::from_millis(1000));
}

#[test]
fn iuam_integration_tests_test_iuam_solver_chained_config() {
    let solver = IuamSolver::new()
        .with_timeout(Duration::from_secs(90))
        .with_poll_interval(Duration::from_millis(1000));

    assert_eq!(solver.timeout_duration, Duration::from_secs(90));
    assert_eq!(solver.poll_interval, Duration::from_millis(1000));
}

#[test]
fn iuam_integration_tests_test_iuam_result_creation() {
    let mut cookies = HashMap::new();
    cookies.insert("cf_clearance".to_string(), "test_clearance_value".to_string());
    cookies.insert("__cfruid".to_string(), "test_cfruid".to_string());

    let result = IuamResult {
        cf_clearance: "test_clearance_value".to_string(),
        user_agent: "Mozilla/5.0".to_string(),
        cookies,
        ip: "192.168.1.1".to_string(),
    };

    assert_eq!(result.cf_clearance, "test_clearance_value");
    assert_eq!(result.user_agent, "Mozilla/5.0");
    assert_eq!(result.ip, "192.168.1.1");
    assert_eq!(result.cookies.len(), 2);
    assert_eq!(
        result.cookies.get("cf_clearance"),
        Some(&"test_clearance_value".to_string())
    );
}

#[test]
fn test_iuam_result_with_many_cookies() {
    let mut cookies = HashMap::new();
    for i in 0..10 {
        cookies.insert(format!("cookie_{}", i), format!("value_{}", i));
    }

    let result = IuamResult {
        cf_clearance: "clearance".to_string(),
        user_agent: "Mozilla/5.0".to_string(),
        cookies,
        ip: "10.0.0.1".to_string(),
    };

    assert_eq!(result.cookies.len(), 10);
}

#[test]
fn iuam_integration_tests_test_iuam_params_creation() {
    let params = IuamParams {
        url: "https://example.com".to_string(),
        proxy: Some("http://proxy:8080".to_string()),
    };

    assert_eq!(params.url, "https://example.com");
    assert_eq!(params.proxy, Some("http://proxy:8080".to_string()));
}

#[test]
fn test_iuam_params_without_proxy() {
    let params = IuamParams {
        url: "https://example.com".to_string(),
        proxy: None,
    };

    assert_eq!(params.url, "https://example.com");
    assert!(params.proxy.is_none());
}

#[test]
fn test_iuam_result_clone() {
    let mut cookies = HashMap::new();
    cookies.insert("test".to_string(), "value".to_string());

    let result1 = IuamResult {
        cf_clearance: "clearance1".to_string(),
        user_agent: "Mozilla/5.0".to_string(),
        cookies,
        ip: "192.168.1.1".to_string(),
    };

    let result2 = result1.clone();

    assert_eq!(result1.cf_clearance, result2.cf_clearance);
    assert_eq!(result1.user_agent, result2.user_agent);
    assert_eq!(result1.ip, result2.ip);
    assert_eq!(result1.cookies, result2.cookies);
}

#[test]
fn test_iuam_multiple_solver_instances() {
    let solver1 = IuamSolver::new().with_timeout(Duration::from_secs(30));
    let solver2 = IuamSolver::new().with_timeout(Duration::from_secs(60));
    let solver3 = IuamSolver::new().with_timeout(Duration::from_secs(90));

    assert_eq!(solver1.timeout_duration, Duration::from_secs(30));
    assert_eq!(solver2.timeout_duration, Duration::from_secs(60));
    assert_eq!(solver3.timeout_duration, Duration::from_secs(90));

    assert_eq!(solver1.poll_interval, Duration::from_millis(500));
    assert_eq!(solver2.poll_interval, Duration::from_millis(500));
    assert_eq!(solver3.poll_interval, Duration::from_millis(500));
}

#[test]
fn cookie_scan_keeps_the_latest_value_of_each_name() {
    let cookies = vec![
        cookie("a", "1"),
        cookie("cf_clearance", "old"),
        obj(vec![("name", s("broken"))]),
        cookie("b", "2"),
        cookie("a", "3"),
        cookie("cf_clearance", "new"),
    ];
    let scan = scan_cookies(&cookies);
    assert_eq!(
        scan.cookies,
        vec![
            ("a".to_string(), "3".to_string()),
            ("cf_clearance".to_string(), "new".to_string()),
            ("b".to_string(), "2".to_string()),
        ]
    );
    assert_eq!(scan.cf_clearance, Some("new".to_string()));
}

#[test]
fn cookie_scan_without_clearance() {
    let scan = scan_cookies(&vec![cookie("__cfruid", "x")]);
    assert_eq!(scan.cookies.len(), 1);
    assert_eq!(scan.cf_clearance, None);
    let empty = scan_cookies(&Vec::new());
    assert!(empty.cookies.is_empty());
    assert_eq!(empty.cf_clearance, None);
}

fn evaluated(value: JsonValue) -> JsonValue {
    obj(vec![("result", obj(vec![("type", s("string")), ("value", value)]))])
}

#[test]
fn user_agent_and_address_extraction() {
    assert_eq!(user_agent_from(&evaluated(s("Mozilla/5.0 X"))).unwrap(), "Mozilla/5.0 X");
    match user_agent_from(&evaluated(JsonValue::Null)) {
        Err(SolverError::TokenExtractionFailed(m)) => assert_eq!(m, "Could not extract User-Agent"),
        other => panic!("unexpected {:?}", other),
    }
    assert_eq!(ip_from(&evaluated(s("203.0.113.7"))), "203.0.113.7");
    assert_eq!(ip_from(&evaluated(s("unknown"))), "unknown");
    assert_eq!(ip_from(&evaluated(s(""))), "unknown");
    assert_eq!(ip_from(&obj(vec![])), "unknown");
}

#[test]
fn clearance_wait_times_out_after_whole_poll_intervals() {
    let solver = IuamSolver::new()
        .with_timeout(Duration::from_millis(1200))
        .with_poll_interval(Duration::from_millis(500));
    let mut wait = solver.start_wait();
    let empty = vec![cookie("__cf_bm", "x")];
    for _ in 0..3 {
        assert!(wait.check().is_ok());
        assert!(matches!(wait.observe(&empty), ClearancePoll::Wait));
    }
    assert!(matches!(wait.check(), Err(SolverError::Timeout)));
}

#[test]
fn clearance_wait_stops_at_the_clearance_cookie() {
    let solver = IuamSolver::new();
    let mut wait = solver.start_wait();
    assert!(wait.check().is_ok());
    let listing = vec![cookie("a", "1"), cookie("cf_clearance", "token"), cookie("a", "2")];
    match wait.observe(&listing) {
        ClearancePoll::Cleared(scan) => {
            assert_eq!(scan.cf_clearance, Some("token".to_string()));
            assert_eq!(
                scan.cookies,
                vec![("a".to_string(), "2".to_string()), ("cf_clearance".to_string(), "token".to_string())]
            );
        }
        ClearancePoll::Wait => panic!("the clearance cookie is in the listing"),
    }
    assert!(wait.check().is_ok());
}

#[test]
fn a_zero_timeout_expires_before_the_first_poll() {
    let solver = IuamSolver::new().with_timeout(Duration::ZERO);
    assert!(matches!(solver.start_wait().check(), Err(SolverError::Timeout)));
}

#[test]
fn clearance_checks_url_then_session() {
    let slot = |session: Option<u8>| BrowserContext {
        context_id: "slot".to_string(),
        process_index: 0,
        port: 9222,
        browser_context_id: None,
        cdp_session: session,
    };
    assert!(matches!(iuam_start(&slot(None), "ftp://example.com"), Err(SolverError::ConfigError(_))));
    match iuam_start(&slot(None), "https://example.com") {
        Err(SolverError::CdpError(m)) => assert_eq!(m, "No CDP session in context"),
        _ => panic!("a slot without a session cannot be solved in"),
    }
    assert!(matches!(iuam_start(&slot(Some(3)), "https://example.com"), Ok(&3)));
}

#[test]
fn clearance_solve_navigates_then_waits_for_the_load() {
    let solver = IuamSolver::new().with_timeout(Duration::from_secs(40));
    let (next, action) = solver.clearance_step(ClearanceStage::Navigating, ClearanceEvent::Navigated(Ok(())));
    assert!(matches!(next, Some(ClearanceStage::Loading)));
    assert!(matches!(action, ClearanceAction::WaitLoad(t) if t == Duration::from_secs(40)));
    let (next, action) = solver.clearance_step(ClearanceStage::Loading, ClearanceEvent::Loaded(Ok(())));
    assert!(next.is_none());
    assert!(matches!(action, ClearanceAction::AwaitClearance));
    let (_, action) = solver.clearance_step(
        ClearanceStage::Navigating,
        ClearanceEvent::Navigated(Err(SolverError::NavigationFailed("n".to_string()))),
    );
    assert!(matches!(action, ClearanceAction::Fail(SolverError::NavigationFailed(_))));
}
