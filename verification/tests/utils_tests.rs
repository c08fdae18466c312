use capsolver::solvers::utils::{escape_html, validate_sitekey, validate_url, StubPageBuilder};
use capsolver::solvers::SolverError;

#[test]
fn test_stub_page_builder() {
    let page = StubPageBuilder::new(
        "1x00000000000000000000AA".to_string(),
        "https://example.com".to_string(),
    )
    .build();

    assert!(page.contains("cf-turnstile"));
    assert!(page.contains("1x00000000000000000000AA"));
    assert!(page.contains("onTurnstileSuccess"));
}

#[test]
fn test_stub_page_with_cdata() {
    let page = StubPageBuilder::new(
        "1x00000000000000000000AA".to_string(),
        "https://example.com".to_string(),
    )
    .with_cdata("test_cdata".to_string())
    .build();

    assert!(page.contains("data-cData=\"test_cdata\""));
}

#[test]
fn test_stub_page_with_action() {
    let page = StubPageBuilder::new(
        "1x00000000000000000000AA".to_string(),
        "https://example.com".to_string(),
    )
    .with_action("test_action".to_string())
    .build();

    assert!(page.contains("data-action=\"test_action\""));
}

#[test]
fn test_validate_sitekey_valid() {
    assert!(validate_sitekey("1x00000000000000000000AA").is_ok());
}

#[test]
fn test_validate_sitekey_empty() {
    assert!(validate_sitekey("").is_err());
}

#[test]
fn test_validate_sitekey_too_short() {
    assert!(validate_sitekey("123").is_err());
}

#[test]
fn test_validate_url_valid() {
    assert!(validate_url("https://example.com").is_ok());
    assert!(validate_url("http://example.com").is_ok());
}

#[test]
fn test_validate_url_invalid() {
    assert!(validate_url("").is_err());
    assert!(validate_url("example.com").is_err());
}

fn sitekey_message(r: Result<(), SolverError>) -> String {
    match r {
        Err(SolverError::InvalidSitekey(m)) => m,
        other => panic!("expected an invalid sitekey, got {:?}", other),
    }
}

#[test]
fn sitekey_errors_name_the_problem() {
    assert_eq!(sitekey_message(validate_sitekey("")), "Sitekey is empty");
    assert_eq!(sitekey_message(validate_sitekey("123")), "Sitekey seems invalid (too short)");
    assert_eq!(
        sitekey_message(validate_sitekey("1x00000000000000000000A!")),
        "Sitekey contains invalid characters"
    );
    assert!(validate_sitekey("abc_DEF-0123456789xyz").is_ok());
}

#[test]
fn sitekey_length_counts_utf8_bytes() {
    // Ten two-byte characters are twenty bytes: long enough, but not allowed.
    let key = "éééééééééé";
    assert_eq!(sitekey_message(validate_sitekey(key)), "Sitekey contains invalid characters");
    // Nineteen ASCII characters are too short.
    assert_eq!(
        sitekey_message(validate_sitekey("1234567890123456789")),
        "Sitekey seems invalid (too short)"
    );
    assert!(validate_sitekey("12345678901234567890").is_ok());
}

#[test]
fn url_errors_name_the_problem() {
    match validate_url("") {
        Err(SolverError::ConfigError(m)) => assert_eq!(m, "URL is empty"),
        other => panic!("unexpected {:?}", other),
    }
    match validate_url("ftp://example.com") {
        Err(SolverError::ConfigError(m)) => {
            assert_eq!(m, "URL must start with http:// or https://")
        }
        other => panic!("unexpected {:?}", other),
    }
    assert!(validate_url("https://").is_ok());
}

#[test]
fn escape_html_replaces_markup_characters() {
    assert_eq!(escape_html("a&b<c>d\"e'f"), "a&amp;b&lt;c&gt;d&quot;e&#39;f");
    assert_eq!(escape_html("plain"), "plain");
    assert_eq!(escape_html(""), "");
    assert_eq!(escape_html("&amp;"), "&amp;amp;");
}

#[test]
fn stub_page_escapes_attribute_values() {
    let page = StubPageBuilder::new("1x00000000000000000000AA".to_string(), "https://e.x".to_string())
        .with_cdata("x\" onload=\"alert(1)".to_string())
        .with_action("<b>".to_string())
        .build();
    assert!(page.contains("data-cData=\"x&quot; onload=&quot;alert(1)\""));
    assert!(page.contains("data-action=\"&lt;b&gt;\""));
    assert!(!page.contains("onload=\"alert"));
    assert!(page.contains(
        "<div class=\"cf-turnstile\" data-cData=\"x&quot; onload=&quot;alert(1)\" data-action=\"&lt;b&gt;\" data-sitekey=\"1x00000000000000000000AA\" data-callback=\"onTurnstileSuccess\"></div>"
    ));
    assert!(page.starts_with("<!DOCTYPE html>"));
    assert!(page.ends_with("</html>"));
}

#[test]
fn solver_error_messages() {
    assert_eq!(SolverError::Timeout.message(), "Timeout waiting for token");
    assert_eq!(SolverError::InvalidSitekey("x".to_string()).message(), "Invalid sitekey: x");
    assert_eq!(SolverError::ConfigError("y".to_string()).message(), "Configuration error: y");
    assert_eq!(SolverError::ChallengeFailed("z".to_string()).message(), "Challenge failed: z");
    assert_eq!(SolverError::InvalidApiResponse.message(), "Invalid response from Turnstile API");
}

#[test]
fn escaped_text_decodes_back_to_the_original() {
    fn decode(text: &str) -> String {
        let mut out = String::new();
        let mut rest = text;
        while !rest.is_empty() {
            let refs = [("&amp;", '&'), ("&lt;", '<'), ("&gt;", '>'), ("&quot;", '"'), ("&#39;", '\'')];
            match refs.iter().find(|(r, _)| rest.starts_with(r)) {
                Some((r, c)) => {
                    out.push(*c);
                    rest = &rest[r.len()..];
                }
                None => {
                    let c = rest.chars().next().unwrap();
                    out.push(c);
                    rest = &rest[c.len_utf8()..];
                }
            }
        }
        out
    }
    for text in ["&amp;lt;", "<a href='x'>\"q\"</a>", "caf\u{e9} & co", "&#39;&quot;"] {
        assert_eq!(decode(&escape_html(text)), text);
    }
}
