use streamsite::chat::{chat_line, chat_session, chat_step, ChatAction, ChatEvent};
use streamsite::session::{DbError, LoginData, SessionRow};
use streamsite::status::Status;
use streamsite::stream::{links_video_pad, stream_actions, ElementState, StreamAction};
use streamsite::stream_state::{admin_infochange, admin_keychange_finish, admin_keychange_start, StreamInfo, StreamKey};
use streamsite::util::{generateCookie, MessageType};

#[test]
fn generated_cookies_are_32_alphanumerics() {
    for _ in 0..20 {
        let c = generateCookie();
        assert_eq!(c.len(), 32);
        assert!(c.chars().all(|ch| ch.is_ascii_alphanumeric()));
    }
    assert_ne!(generateCookie(), generateCookie());
}

#[test]
fn status_codes() {
    assert_eq!(Status::Success.code(), 200);
    assert_eq!(Status::Unauthorized.code(), 401);
    assert_eq!(Status::PayloadTooLarge.code(), 413);
    assert_eq!(Status::InternalServerError.code(), 500);
}

#[test]
fn initial_stream_state() {
    let info = StreamInfo::new();
    assert_eq!(info.title, "My first stream!");
    assert_eq!(info.description, "No description available.");
    assert_eq!(StreamKey::new().key, "NULL");
}

#[test]
fn infochange_sets_title_and_description() {
    let mut info = StreamInfo::new();
    let st = admin_infochange(LoginData { username: "Late show".to_string(), password: "Tonight".to_string() }, &mut info);
    assert_eq!(st, Status::Success);
    assert_eq!(info.title, "Late show");
    assert_eq!(info.description, "Tonight");
}

#[test]
fn infochange_limits_title_bytes() {
    let mut info = StreamInfo::new();
    let st = admin_infochange(LoginData { username: "a".repeat(64), password: "d".to_string() }, &mut info);
    assert_eq!(st, Status::Success);
    assert_eq!(info.title, "a".repeat(64));
    let st = admin_infochange(LoginData { username: "b".repeat(65), password: "x".to_string() }, &mut info);
    assert_eq!(st, Status::PayloadTooLarge);
    assert_eq!(info.title, "a".repeat(64));
    assert_eq!(info.description, "d");
    // 33 characters of two bytes each: 66 bytes.
    let st = admin_infochange(LoginData { username: "é".repeat(33), password: "x".to_string() }, &mut info);
    assert_eq!(st, Status::PayloadTooLarge);
    assert_eq!(info.title, "a".repeat(64));
}

#[test]
fn keychange_stores_and_answers_the_new_key() {
    let (key, msg) = admin_keychange_start();
    assert_eq!(key.len(), 32);
    assert!(msg == MessageType::KEYCHANGE(key.clone()));
    let mut k = StreamKey::new();
    let r = admin_keychange_finish(&mut k, key.clone(), Ok(()));
    assert_eq!(r, Ok(key.clone()));
    assert_eq!(k.key, key);
}

#[test]
fn keychange_failure_keeps_the_key() {
    let mut k = StreamKey::new();
    let r = admin_keychange_finish(&mut k, "NEW".to_string(), Err("sending on a closed channel".to_string()));
    assert_eq!(r, Err((Status::InternalServerError, "sending on a closed channel".to_string())));
    assert_eq!(k.key, "NULL");
}

#[test]
fn chat_session_cases() {
    assert_eq!(chat_session(None), Err(Status::Unauthorized));
    assert_eq!(chat_session(Some(Err(DbError::RowNotFound))), Err(Status::Unauthorized));
    assert_eq!(chat_session(Some(Err(DbError::Other("x".to_string())))), Err(Status::InternalServerError));
    let row = SessionRow { id: "s".to_string(), userid: "u7".to_string(), expires: 0 };
    assert_eq!(chat_session(Some(Ok(row))), Ok("u7".to_string()));
}

#[test]
fn chat_lines_and_events() {
    assert_eq!(chat_line("ann", "hi"), "ann: hi");
    match chat_step("ann", ChatEvent::ClientText("hello there".to_string())) {
        ChatAction::Publish(l) => assert_eq!(l, "ann: hello there"),
        _ => panic!("not published"),
    }
    match chat_step("ann", ChatEvent::ClientPing(vec![9, 9])) {
        ChatAction::SendPong(p) => assert_eq!(p, vec![1]),
        _ => panic!("no pong"),
    }
    match chat_step("ann", ChatEvent::Broadcast("bob: yo".to_string())) {
        ChatAction::SendText(l) => assert_eq!(l, "bob: yo"),
        _ => panic!("not forwarded"),
    }
    assert!(matches!(chat_step("ann", ChatEvent::ClientClosed), ChatAction::Stop));
    assert!(matches!(chat_step("ann", ChatEvent::ClientOther), ChatAction::Ignore));
    assert!(matches!(chat_step("ann", ChatEvent::BroadcastFailed), ChatAction::Ignore));
}

#[test]
fn stream_messages() {
    let a = stream_actions(MessageType::STARTSTREAM);
    assert_eq!(a.len(), 1);
    assert!(matches!(a[0], StreamAction::SetPipelineState(ElementState::Playing)));
    let a = stream_actions(MessageType::STOPSTREAM);
    assert_eq!(a.len(), 1);
    assert!(matches!(a[0], StreamAction::SetPipelineState(ElementState::Null)));
    let a = stream_actions(MessageType::KEYCHANGE("k3y".to_string()));
    assert_eq!(a.len(), 3);
    assert!(matches!(a[0], StreamAction::SetSourceState(ElementState::Null)));
    match &a[1] {
        StreamAction::SetSourceStreamId(s) => assert_eq!(s, "k3y"),
        _ => panic!("no stream id"),
    }
    assert!(matches!(a[2], StreamAction::SetSourceState(ElementState::Playing)));
}

#[test]
fn video_pads_are_linked() {
    assert!(links_video_pad("video_0100"));
    assert!(links_video_pad("video"));
    assert!(!links_video_pad("audio_0101"));
    assert!(!links_video_pad("vide"));
    assert!(!links_video_pad(""));
    assert!(!links_video_pad("Video_1"));
}

/// What the worker last set, replayed from the actions of each message.
struct Replayed {
    pipeline: ElementState,
    source: ElementState,
    stream_id: String,
}

fn replay(msgs: Vec<MessageType>) -> Replayed {
    let mut w = Replayed {
        pipeline: ElementState::Playing,
        source: ElementState::Playing,
        stream_id: streamsite::stream::INITIAL_STREAM_ID.to_string(),
    };
    for m in msgs {
        for a in stream_actions(m) {
            match a {
                StreamAction::SetPipelineState(s) => w.pipeline = s,
                StreamAction::SetSourceState(s) => w.source = s,
                StreamAction::SetSourceStreamId(id) => w.stream_id = id,
            }
        }
    }
    w
}

#[test]
fn worker_state_after_messages() {
    let w = replay(vec![]);
    assert_eq!((w.pipeline, w.source, w.stream_id.as_str()), (ElementState::Playing, ElementState::Playing, "penis"));
    let w = replay(vec![
        MessageType::KEYCHANGE("first".to_string()),
        MessageType::STOPSTREAM,
        MessageType::KEYCHANGE("second".to_string()),
    ]);
    assert_eq!((w.pipeline, w.source, w.stream_id.as_str()), (ElementState::Null, ElementState::Playing, "second"));
    let w = replay(vec![MessageType::STOPSTREAM, MessageType::STARTSTREAM]);
    assert_eq!((w.pipeline, w.stream_id.as_str()), (ElementState::Playing, "penis"));
}

#[test]
fn shown_key_is_the_accepted_key_after_key_changes() {
    let mut key = StreamKey::new();
    let mut sent = vec![];
    for _ in 0..3 {
        let (newkey, msg) = admin_keychange_start();
        sent.push(msg);
        admin_keychange_finish(&mut key, newkey, Ok(())).unwrap();
    }
    assert_eq!(replay(sent).stream_id, key.key);
}
