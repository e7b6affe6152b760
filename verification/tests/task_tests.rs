use myapp::json::{json_lookup, Json};
use myapp::numbers::{parse_i32, u16_to_decimal};
use myapp::state::AppState;
use myapp::tasks::{prepare_tasks_request, task_from_json, tasks_from_response};

#[test]
fn decimal_formatting() {
    assert_eq!(u16_to_decimal(0), "0");
    assert_eq!(u16_to_decimal(7), "7");
    assert_eq!(u16_to_decimal(404), "404");
    assert_eq!(u16_to_decimal(65535), "65535");
}

#[test]
fn integer_parsing() {
    assert_eq!(parse_i32("0"), Some(0));
    assert_eq!(parse_i32("42"), Some(42));
    assert_eq!(parse_i32("-7"), Some(-7));
    assert_eq!(parse_i32("2147483647"), Some(2147483647));
    assert_eq!(parse_i32("-2147483648"), Some(-2147483648));
    assert_eq!(parse_i32("2147483648"), None);
    assert_eq!(parse_i32("-2147483649"), None);
    assert_eq!(parse_i32(""), None);
    assert_eq!(parse_i32("-"), None);
    assert_eq!(parse_i32("1.5"), None);
    assert_eq!(parse_i32("1e3"), None);
    assert_eq!(parse_i32("10000000000"), None);
    assert_eq!(parse_i32("007"), Some(7));
}

#[test]
fn missing_key_fails_without_request() {
    // An empty stored key yields the fixed message and no prepared request,
    // so the caller has nothing to send.
    let s = AppState::new(None, None);
    let e = prepare_tasks_request(&s).unwrap_err();
    assert_eq!(e, "Missing TODOIST_API_KEY (set it in your env)");
}

#[test]
fn prepared_request_has_url_and_key() {
    let s = AppState::new(Some("http://localhost:1234/rest/v2".to_string()), Some("tok".to_string()));
    let q = prepare_tasks_request(&s).unwrap();
    assert_eq!(q.url, "http://localhost:1234/rest/v2/tasks");
    assert_eq!(q.key, "tok");
}

#[test]
fn non_success_status_reports_code_and_body() {
    let e = tasks_from_response(404, "not found").unwrap_err();
    assert_eq!(e, "Upstream error 404: not found");
    assert!(e.contains("404"));
    assert!(e.contains("not found"));
}

#[test]
fn non_success_status_with_empty_body() {
    let e = tasks_from_response(500, "").unwrap_err();
    assert_eq!(e, "Upstream error 500: ");
}

#[test]
fn minimal_task_gets_defaults() {
    let ts = tasks_from_response(200, "[{\"id\": \"1\", \"content\": \"write tests\"}]").unwrap();
    assert_eq!(ts.len(), 1);
    let t = &ts[0];
    assert_eq!(t.id, "1");
    assert_eq!(t.content, "write tests");
    assert_eq!(t.is_completed, false);
    assert!(t.project_id.is_none());
    assert!(t.section_id.is_none());
    assert!(t.labels.is_none());
    assert!(t.priority.is_none());
    assert!(t.due.is_none());
    assert!(t.extra.is_empty());
}

#[test]
fn unknown_fields_are_preserved() {
    let body = "[{\"id\": \"1\", \"content\": \"c\", \"url\": \"https://x\", \"order\": 3}]";
    let ts = tasks_from_response(200, body).unwrap();
    let t = &ts[0];
    // serde_json yields object fields in ascending key order.
    assert_eq!(t.extra.len(), 2);
    assert_eq!(t.extra[0].0, "order");
    assert!(matches!(&t.extra[0].1, Json::Num(n) if n == "3"));
    assert_eq!(t.extra[1].0, "url");
    assert!(matches!(&t.extra[1].1, Json::Str(s) if s == "https://x"));
}

#[test]
fn full_task_decodes_every_field() {
    let body = "[{\"id\": \"9\", \"content\": \"c\", \"is_completed\": true, \
                 \"project_id\": \"p\", \"section_id\": \"s\", \
                 \"labels\": [\"a\", \"b\"], \"priority\": 4, \
                 \"due\": {\"date\": \"2024-01-01\"}}]";
    let ts = tasks_from_response(200, body).unwrap();
    let t = &ts[0];
    assert_eq!(t.id, "9");
    assert_eq!(t.content, "c");
    assert_eq!(t.is_completed, true);
    assert_eq!(t.project_id.as_deref(), Some("p"));
    assert_eq!(t.section_id.as_deref(), Some("s"));
    assert_eq!(t.labels.as_deref(), Some(&["a".to_string(), "b".to_string()][..]));
    assert_eq!(t.priority, Some(4));
    match t.due.as_ref().unwrap() {
        Json::Obj(fields) => {
            assert_eq!(fields.len(), 1);
            assert_eq!(fields[0].0, "date");
            assert!(matches!(&fields[0].1, Json::Str(d) if d == "2024-01-01"));
        }
        other => panic!("expected object due, got {:?}", other),
    }
}

#[test]
fn null_optionals_fall_back_to_defaults() {
    let body = "[{\"id\": \"1\", \"content\": \"c\", \"project_id\": null, \
                 \"section_id\": null, \"labels\": null, \"priority\": null, \"due\": null}]";
    let ts = tasks_from_response(200, body).unwrap();
    let t = &ts[0];
    assert!(t.project_id.is_none());
    assert!(t.section_id.is_none());
    assert!(t.labels.is_none());
    assert!(t.priority.is_none());
    assert!(t.due.is_none());
    assert!(t.extra.is_empty());
}

#[test]
fn order_of_tasks_is_kept() {
    let body = "[{\"id\": \"b\", \"content\": \"2\"}, {\"id\": \"a\", \"content\": \"1\"}]";
    let ts = tasks_from_response(200, body).unwrap();
    assert_eq!(ts.len(), 2);
    assert_eq!(ts[0].id, "b");
    assert_eq!(ts[1].id, "a");
}

#[test]
fn empty_array_is_ok() {
    assert!(tasks_from_response(200, "[]").unwrap().is_empty());
}

#[test]
fn invalid_json_body_fails() {
    let e = tasks_from_response(200, "{oops").unwrap_err();
    assert_eq!(e, "JSON error: response body is not valid JSON");
}

#[test]
fn non_array_body_fails() {
    let e = tasks_from_response(200, "{}").unwrap_err();
    assert_eq!(e, "JSON error: expected an array of tasks");
}

#[test]
fn non_object_element_fails() {
    let e = tasks_from_response(200, "[3]").unwrap_err();
    assert_eq!(e, "JSON error: expected a task object");
}

#[test]
fn numeric_id_fails() {
    let e = tasks_from_response(200, "[{\"id\": 1, \"content\": \"c\"}]").unwrap_err();
    assert_eq!(e, "JSON error: invalid value for field `id`");
}

#[test]
fn missing_id_fails() {
    let e = tasks_from_response(200, "[{\"content\": \"c\"}]").unwrap_err();
    assert_eq!(e, "JSON error: missing field `id`");
}

#[test]
fn missing_content_fails() {
    let e = tasks_from_response(200, "[{\"id\": \"1\"}]").unwrap_err();
    assert_eq!(e, "JSON error: missing field `content`");
}

#[test]
fn non_bool_is_completed_fails() {
    let body = "[{\"id\": \"1\", \"content\": \"c\", \"is_completed\": \"yes\"}]";
    let e = tasks_from_response(200, body).unwrap_err();
    assert_eq!(e, "JSON error: invalid value for field `is_completed`");
}

#[test]
fn non_string_label_fails() {
    let body = "[{\"id\": \"1\", \"content\": \"c\", \"labels\": [\"a\", 3]}]";
    let e = tasks_from_response(200, body).unwrap_err();
    assert_eq!(e, "JSON error: invalid value for field `labels`");
}

#[test]
fn out_of_range_priority_fails() {
    let body = "[{\"id\": \"1\", \"content\": \"c\", \"priority\": 999999999999}]";
    let e = tasks_from_response(200, body).unwrap_err();
    assert_eq!(e, "JSON error: invalid value for field `priority`");
}

#[test]
fn fractional_priority_fails() {
    let body = "[{\"id\": \"1\", \"content\": \"c\", \"priority\": 1.5}]";
    let e = tasks_from_response(200, body).unwrap_err();
    assert_eq!(e, "JSON error: invalid value for field `priority`");
}

#[test]
fn negative_priority_decodes() {
    let body = "[{\"id\": \"1\", \"content\": \"c\", \"priority\": -2}]";
    let ts = tasks_from_response(200, body).unwrap();
    assert_eq!(ts[0].priority, Some(-2));
}

#[test]
fn first_field_of_a_name_wins() {
    // Built by hand: the parser itself never yields duplicate keys.
    let j = Json::Obj(vec![
        ("id".to_string(), Json::Str("first".to_string())),
        ("id".to_string(), Json::Str("second".to_string())),
        ("content".to_string(), Json::Str("c".to_string())),
    ]);
    let t = task_from_json(j).unwrap();
    assert_eq!(t.id, "first");
}

#[test]
fn lookup_finds_first_occurrence() {
    let fields = vec![
        ("k".to_string(), Json::Num("1".to_string())),
        ("k".to_string(), Json::Num("2".to_string())),
    ];
    match json_lookup(&fields, &"k".to_string()) {
        Some(Json::Num(n)) => assert_eq!(n, "1"),
        other => panic!("unexpected lookup result {:?}", other),
    }
    assert!(json_lookup(&fields, &"absent".to_string()).is_none());
}
