use the_bot::api_checker::backend_report;
use the_bot::health::{
    config_key, format_response, funny_line, judge, on_lookup, parse_message, plan_probe, render,
    send_funny, HttpReply, Target, Verdict,
};

fn ok_reply(status: &str) -> HttpReply {
    HttpReply { success: true, status_line: "200 OK".to_string(), json_status: Some(status.to_string()) }
}

fn target_of(message: &str) -> Target {
    plan_probe(message).ok().expect("a well-formed request")
}

/// The whole probe for a request whose URL is configured.
fn probe(message: &str, reply: HttpReply) -> String {
    let target = target_of(message);
    let (target, _url) = on_lookup(target, Some("http://localhost/health".to_string())).ok().unwrap();
    render(&judge(target, reply))
}

#[test]
fn health_ok_returns_healthy_message() {
    let res = probe("!health backend dev", ok_reply("ok"));
    assert!(res.contains("Service Healthy"));
    assert!(res.contains("✅"));
    assert!(res.contains("backend"));
    assert!(res.contains("dev"));
}

#[test]
fn health_non_ok_json_returns_unhealthy_message() {
    let res = probe("!health backend staging", ok_reply("fail"));
    assert!(res.contains("Service Down"));
    assert!(res.contains("❌"));
}

#[test]
fn health_invalid_json_returns_error_message() {
    let reply = HttpReply { success: true, status_line: "200 OK".to_string(), json_status: None };
    let res = probe("!health frontend prod", reply);
    assert!(res.contains("Invalid JSON response"));
}

#[test]
fn health_http_error_status_returns_down_message() {
    let reply = HttpReply {
        success: false,
        status_line: "500 Internal Server Error".to_string(),
        json_status: Some("error".to_string()),
    };
    let res = probe("!health backend qa", reply);
    assert!(res.contains("Service Down"));
    assert!(res.contains("500"));
}

#[test]
fn missing_env_var_returns_hint_message() {
    let target = target_of("!health backend dev");
    let verdict = on_lookup(target, None).err().unwrap();
    match &verdict {
        Verdict::ResolutionFailed { key, .. } => assert_eq!(key, "BACKEND_DEV_URL"),
        _ => panic!("expected a resolution failure"),
    }
    let res = render(&verdict);
    assert!(res.contains("হদিস"));
    assert!(res.contains("BACKEND_DEV_URL"));
}

#[test]
fn invalid_format_returns_funny_message() {
    let res = plan_probe("!health backend").err().unwrap();
    assert!(!res.is_empty());
    assert!((0..10).any(|i| funny_line(i) == res));
}

#[test]
fn end_to_end_myapp_prod_is_healthy() {
    let target = target_of("!health myapp prod");
    assert_eq!(target.key, "MYAPP_PROD_URL");
    let res = probe("!health myapp prod", ok_reply("ok"));
    assert!(res.contains("myapp"));
    assert!(res.contains("prod"));
    assert!(res.contains("✅"));
}

#[test]
fn ok_in_any_case_is_healthy() {
    for status in ["ok", "OK", "Ok", "oK"] {
        let target = target_of("!health backend dev");
        assert!(matches!(judge(target, ok_reply(status)), Verdict::Healthy { .. }));
    }
}

#[test]
fn degraded_is_unhealthy_carrying_status() {
    let target = target_of("!health backend dev");
    match judge(target, ok_reply("degraded")) {
        Verdict::Unhealthy { status, service, environment } => {
            assert_eq!(status, "degraded");
            assert_eq!(service, "backend");
            assert_eq!(environment, "dev");
        }
        _ => panic!("expected an unhealthy verdict"),
    }
}

#[test]
fn http_500_is_unhealthy_carrying_code() {
    let target = target_of("!health backend dev");
    let reply = HttpReply {
        success: false,
        status_line: "500 Internal Server Error".to_string(),
        json_status: None,
    };
    match judge(target, reply) {
        Verdict::Unhealthy { status, .. } => assert!(status.contains("500")),
        _ => panic!("expected an unhealthy verdict"),
    }
}

#[test]
fn non_json_body_is_malformed() {
    let target = target_of("!health backend dev");
    let reply = HttpReply { success: true, status_line: "200 OK".to_string(), json_status: None };
    assert!(matches!(judge(target, reply), Verdict::MalformedResponse));
}

#[test]
fn config_key_uppercases_both_tokens() {
    assert_eq!(config_key("backend", "dev"), "BACKEND_DEV_URL");
    assert_eq!(config_key("MyApp", "Prod"), "MYAPP_PROD_URL");
}

#[test]
fn parse_message_splits_on_any_whitespace() {
    let p = parse_message("  !health\tbackend \n dev ").ok().unwrap();
    assert_eq!(p.service, "backend");
    assert_eq!(p.environment, "dev");
    assert!(parse_message("!health a b c").is_err());
    assert!(parse_message("").is_err());
}

#[test]
fn send_funny_is_a_canned_line() {
    let line = send_funny();
    assert!((0..10).any(|i| funny_line(i) == line));
    assert_eq!(funny_line(5), "আমি জুনায়েদ 😇");
}

#[test]
fn format_response_exact_text() {
    assert_eq!(
        format_response("backend", "dev", "ok"),
        "```\n🚀 | Service Healthy\n\nbackend has been checked\n\nEnvironment          Status\ndev                 OK\n\nHealth Check\n✅ Healthy\n```"
    );
    assert_eq!(
        format_response("web", "qa", "down"),
        "```\n⚠️ | Service Down\n\nweb has been checked\n\nEnvironment          Status\nqa                 DOWN\n\nHealth Check\n❌ Unhealthy\n```"
    );
}

#[test]
fn test_backend_health_all_scenarios() {
    assert_eq!(
        backend_report(None),
        "The backend URL couldn't be found in the environment variables. Please set the BACKEND_URL variable."
    );
    assert_eq!(backend_report(Some(ok_reply("ok"))), "Backend is running ✅");
    let invalid = HttpReply { success: true, status_line: "200 OK".to_string(), json_status: None };
    assert_eq!(backend_report(Some(invalid)), "Backend is NOT running ❌ — invalid JSON");
    assert_eq!(backend_report(Some(ok_reply("error"))), "Backend is NOT running ❌ — status: error");
    let e500 = HttpReply {
        success: false,
        status_line: "500 Internal Server Error".to_string(),
        json_status: None,
    };
    assert_eq!(
        backend_report(Some(e500)),
        "Backend is NOT running ❌ — HTTP status: 500 Internal Server Error"
    );
    let e404 = HttpReply { success: false, status_line: "404 Not Found".to_string(), json_status: None };
    assert_eq!(backend_report(Some(e404)), "Backend is NOT running ❌ — HTTP status: 404 Not Found");
    assert_eq!(backend_report(Some(ok_reply("OK"))), "Backend is running ✅");
    assert_eq!(backend_report(Some(ok_reply("Ok"))), "Backend is running ✅");
}
