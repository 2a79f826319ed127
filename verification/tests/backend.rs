use zxq5chat::backend::auth::{
    login_options, login_reply, session_lookup, session_outcome, signup_arguments, signup_options,
    signup_reply, SessionToken, UserSignupForm, SESSION_LIFETIME_SECS,
};
use zxq5chat::backend::chatsync::listener::{
    chat, get_socket_dir, get_socket_path, init_socket_steps, minecraft_chat_message,
    minecraft_reply, socket_setup_steps, MinecraftMessage, SetupStep, MINECRAFT_CHANNEL,
};
use zxq5chat::backend::config::Config;
use zxq5chat::backend::cors::{cors_policy, HttpMethod};
use zxq5chat::backend::error::BackendError;
use zxq5chat::backend::memelicense::get_meme_license;
use zxq5chat::backend::messenger::{inbound_chat_message, MessengerServer, RealTimeMessage};
use zxq5chat::backend::record::RecordId;
use zxq5chat::backend::servers::servers;
use zxq5chat::backend::user::User;

fn rid(key: &str) -> RecordId {
    RecordId::from_table_key("User", key.to_string())
}

#[test]
fn preflight_routes_answer_ok() {
    assert_eq!(login_options().code, 200);
    assert_eq!(signup_options().code, 200);
}

#[test]
fn login_reply_sets_cookie_on_success() {
    let r = login_reply(Ok("tok".to_string()));
    assert_eq!(r.status.code, 200);
    let c = r.cookie.unwrap();
    assert_eq!(c.name, "auth-token");
    assert_eq!(c.value, "tok");
}

#[test]
fn login_reply_refuses_on_error() {
    let r = login_reply(Err(BackendError::DbError("x".to_string())));
    assert_eq!(r.status.code, 401);
    assert!(r.cookie.is_none());
}

#[test]
fn signup_replies() {
    let ok = signup_reply(Ok("t".to_string()));
    assert_eq!(ok.status.code, 200);
    assert_eq!(ok.cookie.unwrap().value, "t");
    let err = signup_reply(Err(BackendError::DbError("taken".to_string())));
    assert_eq!(err.status.code, 409);
    assert!(err.cookie.is_none());
}

#[test]
fn signup_passes_username_as_email_and_display_name() {
    let form = UserSignupForm {
        username: "alice".to_string(),
        password: "pw".to_string(),
        token: "invite".to_string(),
    };
    let a = signup_arguments(&form);
    assert_eq!(a.username, "alice");
    assert_eq!(a.email, "alice");
    assert_eq!(a.password, "pw");
    assert_eq!(a.displayname, "alice");
}

#[test]
fn user_signup_gives_empty_token() {
    let r = User::signup("a".into(), "b".into(), "c".into(), "d".into());
    assert_eq!(r.unwrap(), "");
}

#[test]
fn user_login_result_cases() {
    assert_eq!(User::login_result(Ok(Some("tok".to_string()))).unwrap(), "tok");
    match User::login_result(Ok(None)) {
        Err(BackendError::DbError(m)) => assert_eq!(m, "Failed to create user"),
        Ok(_) => panic!("expected an error"),
    }
    match User::login_result(Err(BackendError::DbError("down".to_string()))) {
        Err(e) => assert_eq!(e.message(), "Failed to create user"),
        Ok(_) => panic!("expected an error"),
    }
}

#[test]
fn backend_error_message() {
    assert_eq!(BackendError::DbError("boom".to_string()).message(), "boom");
}

#[test]
fn session_guard_steps() {
    assert_eq!(session_lookup(Some("abc".to_string())).unwrap(), "abc");
    assert_eq!(session_lookup(None).err().unwrap().code, 401);
    let user = User::for_connection("bob".to_string(), "k1".to_string(), 5);
    let found = session_outcome(Ok(Some(user))).ok().unwrap();
    assert_eq!(found.username, "bob");
    assert_eq!(session_outcome(Ok(None)).err().unwrap().code, 401);
    assert_eq!(
        session_outcome(Err(BackendError::DbError("x".to_string()))).err().unwrap().code,
        401
    );
}

#[test]
fn session_token_is_hash_of_time_and_random_value() {
    let t = SessionToken::issue(1700000000, 42, rid("u1"));
    assert_eq!(t.token, "eb71c1b6c7870513539fefb2677ddaadd418b7fcde05d7687b17c44416c39571");
    assert_eq!(t.created_at, 1700000000);
    assert_eq!(t.expires_at, 1700000000 + 604800);
    assert_eq!(t.user_id.key, "u1");
    let z = SessionToken::issue(0, 0, rid("u2"));
    assert_eq!(z.token, "22841ea360fc3c3676a38502aa9a90a1ae1fbdac1d937746358efe559d349b6f");
}

#[test]
fn new_session_token_lasts_a_week() {
    let t = SessionToken::new(1000, rid("u"));
    assert_eq!(t.token.len(), 64);
    assert!(t.token.chars().all(|c| c.is_ascii_hexdigit() && !c.is_ascii_uppercase()));
    assert_eq!(t.expires_at - t.created_at, SESSION_LIFETIME_SECS as i64);
    assert_eq!(SESSION_LIFETIME_SECS, 604800);
}

#[test]
fn status_route_reports_ok_and_time() {
    let s = chat(1234);
    assert_eq!(s.status, "ok");
    assert_eq!(s.timestamp, 1234);
}

#[test]
fn socket_paths() {
    assert_eq!(get_socket_path(), "/tmp/minecraft_chat/chat.sock");
    assert_eq!(get_socket_dir(), "/tmp/minecraft_chat");
}

#[test]
fn socket_setup_when_nothing_exists() {
    let steps = socket_setup_steps(false, false);
    assert_eq!(steps.len(), 4);
    assert!(matches!(&steps[0], SetupStep::CreateDir { path } if path == "/tmp/minecraft_chat"));
    assert!(matches!(&steps[1], SetupStep::SetMode { path, mode } if path == "/tmp/minecraft_chat" && *mode == 0o755));
    assert!(matches!(&steps[2], SetupStep::Bind { path } if path == "/tmp/minecraft_chat/chat.sock"));
    assert!(matches!(&steps[3], SetupStep::SetMode { path, mode } if path == "/tmp/minecraft_chat/chat.sock" && *mode == 0o777));
}

#[test]
fn socket_setup_removes_stale_socket() {
    let steps = socket_setup_steps(true, true);
    assert_eq!(steps.len(), 3);
    assert!(matches!(&steps[0], SetupStep::RemoveFile { path } if path == "/tmp/minecraft_chat/chat.sock"));
    assert!(init_socket_steps(true).is_empty());
    assert_eq!(init_socket_steps(false).len(), 2);
}

#[test]
fn game_message_becomes_chat_message() {
    let m = minecraft_chat_message(
        MinecraftMessage { player: "Steve".to_string(), content: "hi".to_string() },
        1_700_000_000_123,
    );
    assert_eq!(m.message_id, 0);
    assert_eq!(m.user_id, "minecraft");
    assert_eq!(m.display_name, "Steve");
    assert_eq!(m.created_at, 1_700_000_000_123);
    assert_eq!(m.content, "hi");
    assert_eq!(minecraft_reply().status, "ok");
    assert_eq!(MINECRAFT_CHANNEL, 1);
}

#[test]
fn inbound_message_trims_key_brackets() {
    let alice = User::for_connection("alice".to_string(), "abc-def".to_string(), 0);
    let m = inbound_chat_message(
        &alice,
        "\u{27e8}\u{27e8}abc-def\u{27e9}",
        "hello".to_string(),
        77,
    );
    assert_eq!(m.user_id, "abc-def");
    assert_eq!(m.display_name, "alice");
    assert_eq!(m.created_at, 77);
    assert_eq!(m.content, "hello");
    let plain = inbound_chat_message(&alice, "xyz", "t".to_string(), 1);
    assert_eq!(plain.user_id, "xyz");
    let only = inbound_chat_message(&alice, "\u{27e8}\u{27e9}", "t".to_string(), 1);
    assert_eq!(only.user_id, "");
}

#[test]
fn default_config_values() {
    let c = Config::default();
    assert_eq!(c.socket_path(), "/tmp/minecraft_chat/chat.sock");
    assert_eq!(c.channel_id(), 1315044374127841374);
    assert_eq!(c.dev_url, "http://localhost:8080");
    assert_eq!(c.prod_url, "https://zxq5.dev");
}

#[test]
fn unreadable_or_invalid_config_is_default() {
    let c = Config::load(None);
    assert_eq!(c.dev_url, "http://localhost:8080");
    let bad = Config::load(Some("this is = = not toml ["));
    assert_eq!(bad.prod_url, "https://zxq5.dev");
    assert_eq!(bad.socket_path(), "/tmp/minecraft_chat/chat.sock");
}

#[test]
fn config_values_are_read_as_rendered() {
    let text = "[chatsync]\nsocket_path = \"/run/chat.sock\"\n\n[server.dev]\nurl = \"http://dev\"\n\n[server.prod]\nurl = \"https://prod\"\n";
    let c = Config::load(Some(text));
    assert_eq!(c.socket_path(), "\"/run/chat.sock\"");
    assert_eq!(c.dev_url, "\"http://dev\"");
    assert_eq!(c.prod_url, "\"https://prod\"");
    assert_eq!(c.channel_id(), 1315044374127841374);
}

#[test]
fn config_partial_file_keeps_other_defaults() {
    let c = Config::load(Some("[server.prod]\nurl = \"https://p\"\n[chatsync]\nother = 1\n"));
    assert_eq!(c.prod_url, "\"https://p\"");
    assert_eq!(c.dev_url, "http://localhost:8080");
    assert_eq!(c.socket_path(), "/tmp/minecraft_chat/chat.sock");
    let table: toml::Table = "server = 3".parse().unwrap();
    let d = Config::from_table(&table);
    assert_eq!(d.dev_url, "http://localhost:8080");
}

#[test]
fn cors_policy_from_config() {
    let p = cors_policy(&Config::default());
    assert_eq!(p.allowed_origins, vec!["http://localhost:8080".to_string(), "https://zxq5.dev".to_string()]);
    assert!(matches!(p.allowed_methods[..], [HttpMethod::Get, HttpMethod::Post, HttpMethod::Options]));
    assert_eq!(p.allowed_headers, vec!["Authorization", "Accept", "Content-Type"]);
    assert!(p.allow_credentials);
}

#[test]
fn server_list() {
    let s = servers();
    assert_eq!(s.len(), 7);
    assert_eq!(s[0].id, "0");
    assert_eq!(s[0].name, "Test Server");
    assert_eq!(s[1].id, "1");
    assert_eq!(s[1].name, "Test Server2");
    assert_eq!(s[6].id, "6");
    assert_eq!(s[6].name, "Test Server7");
}

#[test]
fn meme_license_text() {
    assert_eq!(get_meme_license("bob".to_string()), "Meme license for bob");
}

#[test]
fn connection_user() {
    let u = User::for_connection("carol".to_string(), "key-1".to_string(), 99);
    assert_eq!(u.id.table, "User");
    assert_eq!(u.id.key, "key-1");
    assert_eq!(u.email, "");
    assert_eq!(u.passhash, "test");
    assert_eq!(u.displayname, "test");
    assert_eq!(u.joined, 99);
}

fn names(v: Vec<&&str>) -> Vec<String> {
    v.into_iter().map(|s| s.to_string()).collect()
}

#[test]
fn register_then_recipients() {
    let mut m: MessengerServer<&str> = MessengerServer::new();
    m.register(rid("a"), 1, "sa");
    m.register(rid("b"), 1, "sb");
    m.register(rid("c"), 2, "sc");
    assert_eq!(names(m.recipients(1)), vec!["sa", "sb"]);
    assert_eq!(names(m.recipients(2)), vec!["sc"]);
    assert!(m.recipients(3).is_empty());
}

#[test]
fn register_again_replaces_sender() {
    let mut m: MessengerServer<&str> = MessengerServer::new();
    m.register(rid("a"), 1, "old");
    m.register(rid("b"), 1, "sb");
    m.register(rid("a"), 1, "new");
    assert_eq!(names(m.recipients(1)), vec!["new", "sb"]);
}

#[test]
fn deregister_removes_from_every_channel() {
    let mut m: MessengerServer<&str> = MessengerServer::new();
    m.register(rid("a"), 1, "a1");
    m.register(rid("a"), 2, "a2");
    m.register(rid("b"), 2, "b2");
    m.deregister(rid("a"));
    assert!(m.recipients(1).is_empty());
    assert_eq!(names(m.recipients(2)), vec!["b2"]);
    m.deregister(rid("nobody"));
    assert_eq!(names(m.recipients(2)), vec!["b2"]);
}

#[test]
fn register_then_deregister_restores_recipients() {
    let mut m: MessengerServer<&str> = MessengerServer::new();
    m.register(rid("b"), 5, "b5");
    let before = names(m.recipients(5));
    m.register(rid("z"), 5, "z5");
    m.deregister(rid("z"));
    assert_eq!(names(m.recipients(5)), before);
}

#[test]
fn same_key_in_another_table_is_another_user() {
    let mut m: MessengerServer<&str> = MessengerServer::new();
    m.register(RecordId::from_table_key("User", "k".to_string()), 1, "u");
    m.register(RecordId::from_table_key("Bot", "k".to_string()), 1, "b");
    assert_eq!(names(m.recipients(1)), vec!["u", "b"]);
    assert!(rid("k").same_as(&rid("k")));
    assert!(!rid("k").same_as(&RecordId::from_table_key("Bot", "k".to_string())));
}

#[test]
fn message_clone_keeps_fields() {
    let m = RealTimeMessage {
        message_id: 3,
        user_id: "u".to_string(),
        display_name: "d".to_string(),
        created_at: 9,
        content: "c".to_string(),
    };
    let c = m.clone();
    assert_eq!(c.message_id, 3);
    assert_eq!(c.user_id, "u");
    assert_eq!(c.content, "c");
}
