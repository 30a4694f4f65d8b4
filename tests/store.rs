use gigachat::error::ApiError;
use gigachat::history::chronological_order;
use gigachat::store::{decimal_string, error_detail, insert_failure, inserted_id};

#[test]
fn decimal_codes() {
    assert_eq!(decimal_string(0), "0");
    assert_eq!(decimal_string(7), "7");
    assert_eq!(decimal_string(500), "500");
    assert_eq!(decimal_string(65535), "65535");
}

#[test]
fn error_detail_prefers_message_fields_in_order() {
    assert_eq!(error_detail("{\"msg\": \"b\", \"message\": \"a\"}"), "a");
    assert_eq!(error_detail("{\"hint\": \"h\", \"details\": \"d\"}"), "d");
    assert_eq!(error_detail("{\"hint\": \"h\"}"), "h");
    assert_eq!(error_detail("{\"message\": 3, \"hint\": \"h\"}"), "{\"message\": 3, \"hint\": \"h\"}");
    assert_eq!(error_detail("plain failure"), "plain failure");
}

#[test]
fn insert_failures_by_status() {
    match insert_failure(409, "profiles", "dup") {
        ApiError::BadRequest(m) => assert_eq!(m, "Duplicate entry: dup"),
        other => panic!("unexpected {:?}", other),
    }
    match insert_failure(404, "profiles", "x") {
        ApiError::Database(m) => assert_eq!(m, "Table 'profiles' not found (x)"),
        other => panic!("unexpected {:?}", other),
    }
    match insert_failure(403, "friends", "rls") {
        ApiError::Database(m) => assert!(m.starts_with("Permission denied on 'friends'") && m.ends_with("(rls)")),
        other => panic!("unexpected {:?}", other),
    }
    match insert_failure(500, "messages", "boom") {
        ApiError::Database(m) => assert_eq!(m, "Supabase error 500 on 'messages': boom"),
        other => panic!("unexpected {:?}", other),
    }
}

#[test]
fn history_is_ordered_by_time_and_stable() {
    let times: Vec<String> = vec![
        "2024-01-02T00:00:00Z".into(),
        "2024-01-01T00:00:00Z".into(),
        "".into(),
        "2024-01-02T00:00:00Z".into(),
        "2024-01-01T12:00:00Z".into(),
    ];
    assert_eq!(chronological_order(&times), vec![2, 1, 4, 0, 3]);
    assert_eq!(chronological_order(&Vec::new()), Vec::<usize>::new());
    let prefix: Vec<String> = vec!["ab".into(), "a".into(), "b".into()];
    assert_eq!(chronological_order(&prefix), vec![1, 0, 2]);
}

#[test]
fn inserted_id_reads_the_first_row() {
    assert_eq!(inserted_id("[{\"id\": \"abc\"}, {\"id\": \"x\"}]").unwrap(), "abc");
    match inserted_id("[]") {
        Err(ApiError::Internal(m)) => assert_eq!(m, "Supabase returned empty array after insert"),
        other => panic!("unexpected {:?}", other),
    }
    match inserted_id("[{\"id\": 5}]") {
        Err(ApiError::Internal(m)) => assert_eq!(m, "Supabase response missing 'id' field: [{\"id\": 5}]"),
        other => panic!("unexpected {:?}", other),
    }
    match inserted_id("oops") {
        Err(ApiError::Internal(m)) => assert_eq!(m, "Unexpected Supabase response: oops"),
        other => panic!("unexpected {:?}", other),
    }
}
