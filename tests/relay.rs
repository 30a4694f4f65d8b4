use gigachat::conversations::{
    extract_conversation_ids, find_common_conversation, find_or_create_direct_conversation,
    is_member, plan_direct_conversation, verify_membership,
};
use gigachat::error::ApiError;
use gigachat::frame::{interpret_frame, resolve_content};
use gigachat::channel::{ensure_channel, Channel};
use gigachat::registry::ConversationRegistry;
use gigachat::session::{OutgoingEvent, Phase, Session, SessionAction, SessionEvent};

const CONV: u128 = 0x67e5_5044_10b1_426f_9247_bb68_0e5f_e0c8;
const ALICE: u128 = 0x1111_1111_1111_4111_8111_1111_1111_1111;
const BOB: u128 = 0x2222_2222_2222_4222_8222_2222_2222_2222;

#[test]
fn structured_frame_yields_its_content() {
    assert_eq!(interpret_frame("{\"content\": \"hello\"}"), Some("hello".to_string()));
}

#[test]
fn plain_text_frame_is_used_verbatim() {
    assert_eq!(interpret_frame("hello"), Some("hello".to_string()));
}

#[test]
fn blank_structured_content_is_dropped() {
    assert_eq!(interpret_frame("{\"content\": \"   \"}"), None);
}

#[test]
fn empty_frame_is_dropped() {
    assert_eq!(interpret_frame(""), None);
}

#[test]
fn whitespace_frame_is_dropped() {
    assert_eq!(interpret_frame(" \t\n "), None);
}

#[test]
fn json_without_content_string_is_relayed_raw() {
    assert_eq!(interpret_frame("{\"text\": \"hi\"}"), Some("{\"text\": \"hi\"}".to_string()));
    assert_eq!(interpret_frame("{\"content\": 5}"), Some("{\"content\": 5}".to_string()));
}

#[test]
fn content_keeps_surrounding_spaces() {
    assert_eq!(interpret_frame("{\"content\": \" hi \"}"), Some(" hi ".to_string()));
}

#[test]
fn resolve_content_follows_the_fallback_rule() {
    assert_eq!(resolve_content("raw", None), Some("raw".to_string()));
    assert_eq!(resolve_content("raw", Some(None)), Some("raw".to_string()));
    assert_eq!(resolve_content("raw", Some(Some("x".to_string()))), Some("x".to_string()));
    assert_eq!(resolve_content("   ", None), None);
}

#[test]
fn get_or_create_keeps_the_first_channel() {
    let mut reg: ConversationRegistry<u32> = ConversationRegistry::new();
    assert!(reg.get_or_create(CONV, 1));
    for offer in 2..10u32 {
        assert!(!reg.get_or_create(CONV, offer));
        assert_eq!(reg.channel(CONV), Some(&1));
    }
    assert_eq!(reg.len(), 1);
    assert!(reg.contains(CONV));
    assert!(!reg.contains(ALICE));
    assert_eq!(reg.channel(ALICE), None);
}

#[test]
fn get_or_create_keeps_ids_apart() {
    let mut reg: ConversationRegistry<&str> = ConversationRegistry::new();
    assert!(reg.get_or_create(ALICE, "a"));
    assert!(reg.get_or_create(BOB, "b"));
    assert!(!reg.get_or_create(ALICE, "c"));
    assert_eq!(reg.channel(ALICE), Some(&"a"));
    assert_eq!(reg.channel(BOB), Some(&"b"));
    assert_eq!(reg.len(), 2);
}

#[test]
fn membership_fails_closed() {
    assert!(is_member(&Ok(1)));
    assert!(!is_member(&Ok(0)));
    assert!(!is_member(&Err("down".to_string())));
    assert!(verify_membership(&Ok(2)).is_ok());
    assert!(matches!(verify_membership(&Ok(0)), Err(ApiError::Unauthorized)));
    assert!(matches!(verify_membership(&Err("down".to_string())), Err(ApiError::Unauthorized)));
}

#[test]
fn conversation_ids_skip_bad_rows() {
    let rows = vec![
        Some("67e55044-10b1-426f-9247-bb680e5fe0c8".to_string()),
        None,
        Some("not-a-uuid".to_string()),
        Some("11111111-1111-4111-8111-111111111111".to_string()),
    ];
    assert_eq!(extract_conversation_ids(&rows), vec![CONV, ALICE]);
}

#[test]
fn common_conversation_is_the_first_shared() {
    assert_eq!(find_common_conversation(&vec![1, 2, 3], &vec![3, 2]), Some(2));
    assert_eq!(find_common_conversation(&vec![1, 2], &vec![4]), None);
    assert_eq!(find_common_conversation(&vec![], &vec![4]), None);
}

#[test]
fn direct_conversation_is_created_once() {
    let mut rows: Vec<(u128, u128)> = Vec::new();
    let ids_of = |rows: &Vec<(u128, u128)>, u: u128| -> Vec<u128> {
        rows.iter().filter(|r| r.1 == u).map(|r| r.0).collect()
    };
    let first =
        plan_direct_conversation(ALICE, BOB, &ids_of(&rows, ALICE), &ids_of(&rows, BOB), CONV)
            .unwrap();
    assert!(first.created);
    assert_eq!(first.conversation, CONV);
    rows.push((first.conversation, ALICE));
    rows.push((first.conversation, BOB));
    let again =
        plan_direct_conversation(ALICE, BOB, &ids_of(&rows, ALICE), &ids_of(&rows, BOB), 99)
            .unwrap();
    assert!(!again.created);
    assert_eq!(again.conversation, CONV);
    assert_eq!(rows.len(), 2);
}

#[test]
fn direct_conversation_with_oneself_is_refused() {
    assert!(matches!(
        plan_direct_conversation(ALICE, ALICE, &vec![], &vec![], CONV),
        Err(ApiError::BadRequest(_))
    ));
    assert!(matches!(
        find_or_create_direct_conversation(BOB, BOB, &vec![], &vec![]),
        Err(ApiError::BadRequest(_))
    ));
}

#[test]
fn direct_conversation_draws_a_fresh_id() {
    let r = find_or_create_direct_conversation(ALICE, BOB, &vec![5], &vec![6]).unwrap();
    assert!(r.created);
    assert_ne!(r.conversation, 5);
    let s = find_or_create_direct_conversation(ALICE, BOB, &vec![5, 7], &vec![7]).unwrap();
    assert!(!s.created);
    assert_eq!(s.conversation, 7);
}

fn active_session() -> Session {
    let mut s = Session::new(ALICE, CONV);
    assert!(matches!(s.step(SessionEvent::MembershipChecked(Ok(1))), SessionAction::Subscribe(c) if c == CONV));
    assert!(matches!(s.phase, Phase::Authorized));
    assert!(matches!(s.step(SessionEvent::Subscribed), SessionAction::Nothing));
    assert!(matches!(s.phase, Phase::Active));
    s
}

fn frame(text: &str) -> SessionEvent {
    SessionEvent::Frame { text: text.to_string(), now: "2024-01-01T00:00:00+00:00".to_string() }
}

#[test]
fn failed_membership_never_subscribes() {
    let mut s = Session::new(ALICE, CONV);
    assert!(matches!(s.step(SessionEvent::MembershipChecked(Ok(0))), SessionAction::Reject));
    assert!(s.is_closed());
    let events = vec![
        SessionEvent::MembershipChecked(Ok(3)),
        SessionEvent::Subscribed,
        frame("hello"),
        SessionEvent::Persisted(true),
        SessionEvent::InboundEnded,
    ];
    for e in events {
        assert!(matches!(s.step(e), SessionAction::Nothing));
        assert!(s.is_closed());
    }
}

#[test]
fn gateway_error_rejects_the_session() {
    let mut s = Session::new(ALICE, CONV);
    assert!(matches!(
        s.step(SessionEvent::MembershipChecked(Err("timeout".to_string()))),
        SessionAction::Reject
    ));
    assert!(s.is_closed());
}

#[test]
fn frame_is_persisted_then_published() {
    let mut s = active_session();
    match s.step(frame("{\"content\": \"hello\"}")) {
        SessionAction::Persist(m) => {
            assert_eq!(m.conversation, CONV);
            assert_eq!(m.sender, ALICE);
            assert_eq!(m.content, "hello");
        }
        _ => panic!("expected a persist action"),
    }
    match s.step(SessionEvent::Persisted(true)) {
        SessionAction::Publish(e) => {
            assert_eq!(e.sender, ALICE);
            assert_eq!(e.content, "hello");
            assert_eq!(e.created_at, "2024-01-01T00:00:00+00:00");
        }
        _ => panic!("expected a publish action"),
    }
    assert!(matches!(s.phase, Phase::Active));
}

#[test]
fn persistence_failure_still_publishes() {
    let mut s = active_session();
    assert!(matches!(s.step(frame("hi there")), SessionAction::Persist(_)));
    match s.step(SessionEvent::Persisted(false)) {
        SessionAction::Publish(e) => assert_eq!(e.content, "hi there"),
        _ => panic!("expected a publish action"),
    }
    assert!(matches!(s.phase, Phase::Active));
}

#[test]
fn blank_frame_produces_nothing() {
    let mut s = active_session();
    assert!(matches!(s.step(frame("{\"content\": \"   \"}")), SessionAction::Nothing));
    assert!(matches!(s.step(frame("")), SessionAction::Nothing));
    assert!(matches!(s.phase, Phase::Active));
}

#[test]
fn inbound_end_cancels_outbound_and_closes() {
    let mut s = active_session();
    assert!(matches!(s.step(SessionEvent::InboundEnded), SessionAction::CancelOutbound));
    assert!(matches!(s.phase, Phase::Closing));
    assert!(matches!(s.step(SessionEvent::SiblingStopped), SessionAction::Nothing));
    assert!(s.is_closed());
}

#[test]
fn outbound_end_cancels_inbound_and_closes() {
    let mut s = active_session();
    assert!(matches!(s.step(frame("x")), SessionAction::Persist(_)));
    assert!(matches!(s.step(SessionEvent::OutboundEnded), SessionAction::CancelInbound));
    assert!(matches!(s.step(SessionEvent::SiblingStopped), SessionAction::Nothing));
    assert!(s.is_closed());
}

#[test]
fn channel_is_opened_once_and_publishing_needs_no_subscriber() {
    let mut reg: ConversationRegistry<Channel> = ConversationRegistry::new();
    assert!(ensure_channel(&mut reg, CONV));
    assert!(!ensure_channel(&mut reg, CONV));
    assert_eq!(reg.len(), 1);
    let mut ch = reg.channel(CONV).unwrap().share();
    let event = |c: &str| OutgoingEvent { sender: ALICE, content: c.to_string(), created_at: "t".to_string() };
    assert_eq!(ch.publish(event("nobody")), 0);
    let mut rx1 = reg.channel(CONV).unwrap().sender().subscribe();
    let mut rx2 = ch.sender().subscribe();
    assert_eq!(ch.publish(event("one")), 2);
    let mut other = reg.channel(CONV).unwrap().share();
    assert_eq!(other.publish(event("two")), 2);
    for rx in [&mut rx1, &mut rx2] {
        assert_eq!(rx.try_recv().unwrap().content, "one");
        assert_eq!(rx.try_recv().unwrap().content, "two");
        assert!(rx.try_recv().is_err());
    }
}
