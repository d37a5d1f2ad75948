use simchat::frontend::components::chat::{ChatAction, ChatState};
use simchat::frontend::components::login::registration_problem;
use simchat::frontend::components::simcalendar::{SimCalendarAction, SimCalendarState};
use simchat::frontend::fetch::{Fetch, FetchResponse, RequestType, Status};
use simchat::text::decimal_string;

#[test]
fn new_request_has_no_url() {
    match Fetch::new().prepare() {
        Err(m) => assert_eq!(m, "method not set"),
        Ok(_) => panic!("a request without URL was prepared"),
    }
    assert!(Fetch::new().post().prepare().is_err());
}

#[test]
fn get_request() {
    let p = Fetch::new().url("/version").prepare().unwrap();
    assert_eq!(p.method, RequestType::GET);
    assert_eq!(p.url, "/version");
    assert_eq!(p.content_type, "application/json");
    assert!(p.body.is_none());
}

#[test]
fn post_request_with_body() {
    let mut body = serde_json::Map::new();
    body.insert("username".to_string(), serde_json::Value::String("alice".to_string()));
    let value = serde_json::Value::Object(body);
    let p = Fetch::new().post().url("/login").data(&value).prepare().unwrap();
    assert_eq!(p.method, RequestType::POST);
    assert_eq!(p.url, "/login");
    assert_eq!(p.body.unwrap(), "{\"username\":\"alice\"}");
}

#[test]
fn later_url_replaces_earlier() {
    let p = Fetch::new().url("/a").url("/b").post().prepare().unwrap();
    assert_eq!(p.url, "/b");
    assert_eq!(p.method, RequestType::POST);
}

#[test]
fn fetch_responses() {
    let r: FetchResponse<u32> = FetchResponse::empty(Status::OK);
    assert!(r.data.is_none());
    assert!(matches!(r.status, Status::OK));
    let r: FetchResponse<u32> = FetchResponse::error("offline");
    assert!(r.data.is_none());
    match r.status {
        Status::Error(m) => assert_eq!(m, "offline"),
        other => panic!("unexpected {:?}", other),
    }
}

#[test]
fn chat_adds_non_empty_messages() {
    let mut chat = ChatState::default();
    assert_eq!(chat.messages_count(), "0");
    chat.add_message("hi");
    chat.add_message("");
    chat.add_message("there");
    assert_eq!(chat.get_messages(), &vec!["hi".to_string(), "there".to_string()]);
    assert_eq!(chat.messages_count(), "2");
}

#[test]
fn chat_reduce_adds_sent_message() {
    let mut chat = ChatState::default();
    chat.add_message("one");
    let next = chat.reduce(ChatAction::MessageSent("two".to_string()));
    assert_eq!(next.get_messages(), &vec!["one".to_string(), "two".to_string()]);
    assert_eq!(chat.get_messages(), &vec!["one".to_string()]);
    let same = chat.reduce(ChatAction::MessageSent(String::new()));
    assert!(same == chat);
}

#[test]
fn message_count_in_decimal() {
    let mut chat = ChatState::default();
    for i in 0..12 {
        chat.add_message(&format!("m{}", i));
    }
    assert_eq!(chat.messages_count(), "12");
    assert_eq!(decimal_string(0), "0");
    assert_eq!(decimal_string(10), "10");
    assert_eq!(decimal_string(1234567), "1234567");
    assert_eq!(decimal_string(usize::MAX), usize::MAX.to_string());
}

#[test]
fn calendar_starts_empty_and_ignores_actions() {
    let cal = SimCalendarState::default();
    let next = cal.reduce(SimCalendarAction::SetAction(serde_json::Number::from(3), "work".into()));
    assert!(next == cal);
    assert!(cal == SimCalendarState::default());
}

#[test]
fn registration_checks() {
    let s = |x: &str| x.to_string();
    assert_eq!(registration_problem(&s("abcd"), &s("abce")).unwrap(), "Passwords do not match");
    assert_eq!(registration_problem(&s("ab"), &s("abc")).unwrap(), "Passwords do not match");
    assert_eq!(
        registration_problem(&s("abc"), &s("abc")).unwrap(),
        "Password must be at least 4 characters"
    );
    assert_eq!(
        registration_problem(&s("äb"), &s("äb")).unwrap(),
        "Password must be at least 4 characters"
    );
    assert!(registration_problem(&s("äbc"), &s("äbc")).is_none());
    assert!(registration_problem(&s("abcd"), &s("abcd")).is_none());
    assert_eq!(
        registration_problem(&s(""), &s("")).unwrap(),
        "Password must be at least 4 characters"
    );
}
