use gigachat::auth::{
    login_user, register_profile, session_user, validate_login, validate_registration,
    LoginRequest, RegisterRequest, StoredCredentials,
};
use gigachat::error::ApiError;
use gigachat::friends::{decide_friend_request, ordered_pair, other_users, FriendAction};
use gigachat::conversations::check_direct_pair;
use gigachat::profile::{check_profile_edit, profile_update, EditProfileRequest};

const ALICE: u128 = 0x1111_1111_1111_4111_8111_1111_1111_1111;
const BOB: u128 = 0x2222_2222_2222_4222_8222_2222_2222_2222;

#[test]
fn error_status_codes() {
    assert_eq!(ApiError::Database("x".into()).status_code(), 502);
    assert_eq!(ApiError::InvalidCredentials.status_code(), 401);
    assert_eq!(ApiError::Unauthorized.status_code(), 401);
    assert_eq!(ApiError::BadRequest("x".into()).status_code(), 400);
    assert_eq!(ApiError::NotFound("x".into()).status_code(), 404);
    assert_eq!(ApiError::Internal("x".into()).status_code(), 500);
}

#[test]
fn error_messages() {
    assert_eq!(ApiError::Database("down".into()).message(), "Database error: down");
    assert_eq!(ApiError::InvalidCredentials.message(), "Invalid username or password");
    assert_eq!(ApiError::Unauthorized.message(), "You must be logged in to do that");
    assert_eq!(ApiError::BadRequest("b".into()).message(), "Bad request: b");
    assert_eq!(ApiError::NotFound("n".into()).message(), "Not found: n");
    assert_eq!(ApiError::Internal("i".into()).message(), "Internal error: i");
}

#[test]
fn session_cookie_is_parsed() {
    assert_eq!(
        session_user(Some("11111111-1111-4111-8111-111111111111".to_string())).unwrap(),
        ALICE
    );
    assert!(matches!(session_user(None), Err(ApiError::Unauthorized)));
    assert!(matches!(session_user(Some("garbage".to_string())), Err(ApiError::Unauthorized)));
}

#[test]
fn registration_fields_are_checked() {
    assert_eq!(validate_registration("  bob  ", "secret").unwrap(), "bob");
    assert!(matches!(validate_registration("   ", "secret"), Err(ApiError::BadRequest(_))));
    assert!(matches!(validate_registration("bob", "12345"), Err(ApiError::BadRequest(_))));
}

#[test]
fn registration_builds_a_profile_that_logs_in() {
    let req = RegisterRequest {
        username: " carol ".to_string(),
        password: "hunter22".to_string(),
        display_name: None,
    };
    assert!(matches!(register_profile(&req, true), Err(ApiError::BadRequest(_))));
    let p = register_profile(&req, false).unwrap();
    assert_eq!(p.username, "carol");
    assert_eq!(p.display_name, "carol");
    assert_ne!(p.password_hash, "hunter22");
    let ok = login_user(
        "hunter22",
        Some(StoredCredentials { id: p.id, password_hash: Some(p.password_hash.clone()) }),
    );
    assert_eq!(ok.unwrap(), p.id);
    let bad = login_user(
        "wrong-pass",
        Some(StoredCredentials { id: p.id, password_hash: Some(p.password_hash) }),
    );
    assert!(matches!(bad, Err(ApiError::InvalidCredentials)));
}

#[test]
fn registration_keeps_given_display_name() {
    let req = RegisterRequest {
        username: "dave".to_string(),
        password: "longenough".to_string(),
        display_name: Some("Dave D".to_string()),
    };
    assert_eq!(register_profile(&req, false).unwrap().display_name, "Dave D");
}

#[test]
fn login_failures() {
    assert!(matches!(login_user("x", None), Err(ApiError::InvalidCredentials)));
    assert!(matches!(
        login_user("x", Some(StoredCredentials { id: ALICE, password_hash: None })),
        Err(ApiError::Internal(_))
    ));
    assert!(matches!(
        login_user("x", Some(StoredCredentials { id: ALICE, password_hash: Some("nohash".into()) })),
        Err(ApiError::Internal(_))
    ));
}

#[test]
fn login_fields_are_checked() {
    let ok = LoginRequest { username: " eve ".into(), password: "p".into() };
    assert_eq!(validate_login(&ok).unwrap(), "eve");
    let blank = LoginRequest { username: "  ".into(), password: "p".into() };
    assert!(matches!(validate_login(&blank), Err(ApiError::BadRequest(_))));
    let nopass = LoginRequest { username: "eve".into(), password: "".into() };
    assert!(matches!(validate_login(&nopass), Err(ApiError::BadRequest(_))));
}

#[test]
fn friend_pairs_are_ordered() {
    assert_eq!(ordered_pair(BOB, ALICE), (ALICE, BOB));
    assert_eq!(ordered_pair(ALICE, BOB), (ALICE, BOB));
}

#[test]
fn friend_requests() {
    assert!(matches!(decide_friend_request(ALICE, ALICE, true, None), Err(ApiError::BadRequest(_))));
    assert!(matches!(decide_friend_request(ALICE, BOB, false, None), Err(ApiError::NotFound(_))));
    assert!(matches!(
        decide_friend_request(BOB, ALICE, true, None),
        Ok(FriendAction::Insert { user_a, user_b }) if user_a == ALICE && user_b == BOB
    ));
    assert!(matches!(
        decide_friend_request(ALICE, BOB, true, Some("pending".into())),
        Ok(FriendAction::AcceptPending)
    ));
    assert!(matches!(
        decide_friend_request(ALICE, BOB, true, Some("accepted".into())),
        Err(ApiError::BadRequest(_))
    ));
    assert!(matches!(
        decide_friend_request(ALICE, BOB, true, Some("blocked".into())),
        Err(ApiError::BadRequest(_))
    ));
    match decide_friend_request(ALICE, BOB, true, Some("odd".into())) {
        Err(ApiError::Internal(m)) => assert_eq!(m, "Unknown friend status: odd"),
        _ => panic!("expected an internal error"),
    }
}

#[test]
fn profile_edits() {
    let none = EditProfileRequest { display_name: None, avatar_url: None, bio: None };
    let bio = EditProfileRequest { display_name: None, avatar_url: None, bio: Some("hi".into()) };
    assert!(check_profile_edit(ALICE, ALICE, &bio).is_ok());
    assert!(matches!(check_profile_edit(ALICE, BOB, &bio), Err(ApiError::Unauthorized)));
    assert!(matches!(check_profile_edit(ALICE, ALICE, &none), Err(ApiError::BadRequest(_))));
}

#[test]
fn friends_are_the_other_side_of_each_row() {
    let as_first = vec![(ALICE, BOB), (ALICE, 7)];
    let as_second = vec![(3, ALICE)];
    assert_eq!(other_users(&as_first, &as_second), vec![BOB, 7, 3]);
    assert_eq!(other_users(&vec![], &vec![]), Vec::<u128>::new());
}

fn bad_request_text(r: Result<impl std::fmt::Debug, ApiError>) -> String {
    match r {
        Err(ApiError::BadRequest(m)) => m,
        other => panic!("expected a bad request, got {:?}", other),
    }
}

#[test]
fn friend_request_messages() {
    assert_eq!(
        bad_request_text(decide_friend_request(ALICE, ALICE, true, None).map(|_| ())),
        "You cannot add yourself as a friend"
    );
    match decide_friend_request(ALICE, BOB, false, None) {
        Err(ApiError::NotFound(m)) => assert_eq!(m, "User not found"),
        _ => panic!("expected not found"),
    }
    assert_eq!(
        bad_request_text(decide_friend_request(ALICE, BOB, true, Some("accepted".into())).map(|_| ())),
        "You are already friends"
    );
    assert_eq!(
        bad_request_text(decide_friend_request(ALICE, BOB, true, Some("blocked".into())).map(|_| ())),
        "This friendship is blocked"
    );
}

#[test]
fn validation_messages() {
    assert_eq!(bad_request_text(validate_registration(" ", "secret")), "Username cannot be empty");
    assert_eq!(
        bad_request_text(validate_registration("bob", "12345")),
        "Password must be at least 6 characters"
    );
    let req = RegisterRequest { username: "bob".into(), password: "secret1".into(), display_name: None };
    assert_eq!(bad_request_text(register_profile(&req, true).map(|p| p.id)), "Username is already taken");
    let blank = LoginRequest { username: "".into(), password: "".into() };
    assert_eq!(bad_request_text(validate_login(&blank)), "Username and password are required");
    assert_eq!(bad_request_text(check_direct_pair(ALICE, ALICE)), "Cannot start a conversation with yourself");
    assert!(check_direct_pair(ALICE, BOB).is_ok());
    let none = EditProfileRequest { display_name: None, avatar_url: None, bio: None };
    assert_eq!(bad_request_text(check_profile_edit(ALICE, ALICE, &none)), "Provide at least one field to update");
}

#[test]
fn profile_update_lists_given_fields() {
    let req = EditProfileRequest { display_name: Some("D".into()), avatar_url: None, bio: Some("b".into()) };
    assert_eq!(
        profile_update(&req),
        vec![("display_name".to_string(), "D".to_string()), ("bio".to_string(), "b".to_string())]
    );
    let none = EditProfileRequest { display_name: None, avatar_url: None, bio: None };
    assert!(profile_update(&none).is_empty());
}

#[test]
fn unicode_white_space_counts_as_blank() {
    assert!(matches!(validate_registration("\u{3000}\u{a0}", "secret"), Err(ApiError::BadRequest(_))));
    assert_eq!(validate_registration("\u{2003}zoe\n", "secret").unwrap(), "zoe");
}
