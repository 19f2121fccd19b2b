use desktop_shell::model::Question;
use desktop_shell::proxy::{
    diagnostics_from_outcome, edit_request_body, history_from_outcome, questions_from_outcome,
    questions_request_body, requirements_request_body, text_from_outcome, unit_from_outcome,
    HttpMethod, HttpOutcome, Operation, ProxyError,
};

fn ok(status: u16, body: &str) -> HttpOutcome {
    HttpOutcome::Responded(status, body.to_string())
}

#[test]
fn urls_and_methods_match_the_endpoints() {
    assert_eq!(
        Operation::GenerateQuestions.url(),
        "http://localhost:8000/generate_questions"
    );
    assert_eq!(
        Operation::GenerateDetailedRequirements.url(),
        "http://localhost:8000/generate_requirements"
    );
    assert_eq!(
        Operation::EditRequirements.url(),
        "http://localhost:8000/edit_requirements"
    );
    assert_eq!(
        Operation::GetProcessingHistory.url(),
        "http://localhost:8000/processing_history"
    );
    assert_eq!(
        Operation::ClearProcessingHistory.url(),
        "http://localhost:8000/processing_history"
    );
    assert_eq!(
        Operation::GetSystemDiagnostics.url(),
        "http://localhost:8000/system_diagnostics"
    );
    assert_eq!(
        Operation::ResetApplicationState.url(),
        "http://localhost:8000/reset_state"
    );
    assert_eq!(Operation::GenerateQuestions.method(), HttpMethod::Post);
    assert_eq!(Operation::GenerateDetailedRequirements.method(), HttpMethod::Post);
    assert_eq!(Operation::EditRequirements.method(), HttpMethod::Post);
    assert_eq!(Operation::GetProcessingHistory.method(), HttpMethod::Get);
    assert_eq!(Operation::ClearProcessingHistory.method(), HttpMethod::Delete);
    assert_eq!(Operation::GetSystemDiagnostics.method(), HttpMethod::Get);
    assert_eq!(Operation::ResetApplicationState.method(), HttpMethod::Post);
}

#[test]
fn questions_body_is_exact() {
    assert_eq!(
        questions_request_body("build a login page"),
        "{\"initial_requirement\":\"build a login page\"}"
    );
}

#[test]
fn questions_body_escapes_special_characters() {
    assert_eq!(
        questions_request_body("a\"b\\c\nd\u{1}"),
        "{\"initial_requirement\":\"a\\\"b\\\\c\\nd\\u0001\"}"
    );
}

#[test]
fn built_body_round_trips_through_a_real_json_parser() {
    let input = "weird \"text\"\\ with\r\n\tcontrols \u{8}\u{c}\u{1f} and unicode \u{e9}\u{4e2d}";
    let body = questions_request_body(input);
    let parsed: serde_json::Value = serde_json::from_str(&body).unwrap();
    assert_eq!(
        parsed.get("initial_requirement").unwrap().as_str().unwrap(),
        input
    );
}

#[test]
fn requirements_body_keeps_answer_order() {
    let answers = vec![
        ("q1".to_string(), "a1".to_string()),
        ("q2".to_string(), "a2".to_string()),
    ];
    assert_eq!(
        requirements_request_body("req", &answers),
        "{\"initial_requirement\":\"req\",\"answers\":{\"q1\":\"a1\",\"q2\":\"a2\"}}"
    );
}

#[test]
fn requirements_body_with_no_answers() {
    let answers: Vec<(String, String)> = Vec::new();
    assert_eq!(
        requirements_request_body("req", &answers),
        "{\"initial_requirement\":\"req\",\"answers\":{}}"
    );
}

#[test]
fn edit_body_is_exact() {
    assert_eq!(
        edit_request_body("the current text", "make it shorter"),
        "{\"current_requirements\":\"the current text\",\"feedback\":\"make it shorter\"}"
    );
}

#[test]
fn generate_questions_scenario() {
    let body = "[{\"id\":\"q1\",\"text\":\"Which auth provider?\",\"category\":\"auth\",\"hint\":null}]";
    let r = questions_from_outcome(ok(200, body)).unwrap();
    assert_eq!(r.len(), 1);
    assert_eq!(
        r[0],
        Question {
            id: "q1".to_string(),
            text: "Which auth provider?".to_string(),
            category: "auth".to_string(),
            hint: None,
        }
    );
}

#[test]
fn question_hint_present_and_absent() {
    let body = "[{\"id\":\"a\",\"text\":\"t\",\"category\":\"c\",\"hint\":\"try oauth\"},\
                {\"id\":\"b\",\"text\":\"u\",\"category\":\"d\"}]";
    let r = questions_from_outcome(ok(200, body)).unwrap();
    assert_eq!(r[0].hint, Some("try oauth".to_string()));
    assert_eq!(r[1].hint, None);
}

#[test]
fn question_with_missing_required_member_is_a_parse_failure() {
    let body = "[{\"id\":\"q1\",\"category\":\"auth\"}]";
    let r = questions_from_outcome(ok(200, body));
    assert!(matches!(r, Err(ProxyError::ParseFailed(_))));
}

#[test]
fn question_with_wrongly_typed_member_is_a_parse_failure() {
    let body = "[{\"id\":5,\"text\":\"t\",\"category\":\"c\"}]";
    let r = questions_from_outcome(ok(200, body));
    assert!(matches!(r, Err(ProxyError::ParseFailed(_))));
}

#[test]
fn non_success_status_is_an_api_error_and_the_body_is_not_parsed() {
    // the body is not even valid JSON; the status alone decides
    let r = questions_from_outcome(ok(404, "<html>not found</html>"));
    match r {
        Err(e @ ProxyError::ApiError(404)) => {
            assert_eq!(e.message(), "API Error: 404");
        },
        other => panic!("expected an API error, got {:?}", other.map(|v| v.len())),
    }
    let r = questions_from_outcome(ok(500, "{\"detail\":\"boom\"}"));
    assert!(matches!(r, Err(ProxyError::ApiError(500))));
}

#[test]
fn malformed_json_on_success_is_a_parse_failure() {
    let r = questions_from_outcome(ok(200, "{not json"));
    match r {
        Err(ProxyError::ParseFailed(detail)) => {
            let message = ProxyError::ParseFailed(detail).message();
            assert!(message.starts_with("Failed to parse response: "));
        },
        other => panic!("expected a parse failure, got {:?}", other.map(|v| v.len())),
    }
}

#[test]
fn transport_failure_is_a_request_failure() {
    let r = questions_from_outcome(HttpOutcome::Failed("connection refused".to_string()));
    match r {
        Err(e @ ProxyError::RequestFailed(_)) => {
            assert_eq!(e.message(), "Request failed: connection refused");
        },
        other => panic!("expected a request failure, got {:?}", other.map(|v| v.len())),
    }
}

#[test]
fn text_response_yields_the_string_unchanged() {
    let r = text_from_outcome(ok(200, "\"the detailed requirements\""));
    assert_eq!(r.unwrap(), "the detailed requirements");
}

#[test]
fn text_response_of_another_shape_is_a_parse_failure() {
    let r = text_from_outcome(ok(200, "{\"text\":\"nope\"}"));
    assert!(matches!(r, Err(ProxyError::ParseFailed(_))));
}

#[test]
fn history_entries_with_optional_members() {
    let body = "[{\"id\":\"1\",\"timestamp\":\"2024-01-01T00:00:00\",\"status\":\"done\",\
                \"input_type\":\"text\",\"input_source\":\"clipboard\",\"result\":\"ok\",\"error\":null},\
                {\"id\":\"2\",\"timestamp\":\"2024-01-02T00:00:00\",\"status\":\"failed\",\
                \"input_type\":\"file\"}]";
    let r = history_from_outcome(ok(200, body)).unwrap();
    assert_eq!(r.len(), 2);
    assert_eq!(r[0].id, "1");
    assert_eq!(r[0].input_source, Some("clipboard".to_string()));
    assert_eq!(r[0].result, Some("ok".to_string()));
    assert_eq!(r[0].error, None);
    assert_eq!(r[1].status, "failed");
    assert_eq!(r[1].input_source, None);
    assert_eq!(r[1].result, None);
    assert_eq!(r[1].error, None);
}

#[test]
fn history_of_wrong_shape_is_a_parse_failure() {
    let r = history_from_outcome(ok(200, "{\"entries\":[]}"));
    assert!(matches!(r, Err(ProxyError::ParseFailed(_))));
}

#[test]
fn diagnostics_snapshot_is_read_whole() {
    let body = "{\"python_version\":\"3.11.4\",\"platform\":\"linux\",\
                \"modules\":{\"aiohttp\":true,\"yaml\":false},\
                \"event_loop_status\":\"running\"}";
    let d = diagnostics_from_outcome(ok(200, body)).unwrap();
    assert_eq!(d.python_version, "3.11.4");
    assert_eq!(d.platform, "linux");
    assert_eq!(d.event_loop_status, "running");
    assert_eq!(
        d.modules,
        vec![("aiohttp".to_string(), true), ("yaml".to_string(), false)]
    );
}

#[test]
fn diagnostics_with_non_boolean_module_is_a_parse_failure() {
    let body = "{\"python_version\":\"3.11\",\"platform\":\"linux\",\
                \"modules\":{\"aiohttp\":\"yes\"},\"event_loop_status\":\"running\"}";
    let r = diagnostics_from_outcome(ok(200, body));
    assert!(matches!(r, Err(ProxyError::ParseFailed(_))));
}

#[test]
fn bodyless_operations_succeed_on_any_success_status() {
    assert!(unit_from_outcome(ok(200, "")).is_ok());
    assert!(unit_from_outcome(ok(204, "")).is_ok());
    assert!(matches!(
        unit_from_outcome(ok(500, "")),
        Err(ProxyError::ApiError(500))
    ));
    assert!(matches!(
        unit_from_outcome(HttpOutcome::Failed("timed out".to_string())),
        Err(ProxyError::RequestFailed(_))
    ));
}

#[test]
fn api_error_message_carries_the_status_code() {
    assert_eq!(ProxyError::ApiError(404).message(), "API Error: 404");
    assert_eq!(ProxyError::ApiError(500).message(), "API Error: 500");
    assert_eq!(ProxyError::ApiError(65535).message(), "API Error: 65535");
}

#[test]
fn requirements_body_round_trips_through_a_real_json_parser() {
    let answers = vec![("has \"quotes\"".to_string(), "line\nbreak".to_string())];
    let body = requirements_request_body("init", &answers);
    let parsed: serde_json::Value = serde_json::from_str(&body).unwrap();
    assert_eq!(
        parsed.get("initial_requirement").unwrap().as_str().unwrap(),
        "init"
    );
    assert_eq!(
        parsed
            .get("answers")
            .unwrap()
            .get("has \"quotes\"")
            .unwrap()
            .as_str()
            .unwrap(),
        "line\nbreak"
    );
}
