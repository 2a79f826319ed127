use zxq5chat::backend::servers::Server;
use zxq5chat::frontend::components::button::button_class;
use zxq5chat::frontend::components::chat::{
    chat_error_text, chat_socket_url, profile_picture_style, should_send,
};
use zxq5chat::frontend::components::incidents::incident_content;
use zxq5chat::frontend::components::login::{
    login_error_text, login_result, login_submission, login_update, login_url, LoginUpdate,
};
use zxq5chat::frontend::components::meme_license::{
    license_fields, license_picture_style, license_title,
};
use zxq5chat::frontend::components::navbar::{account_choices, brand};
use zxq5chat::frontend::components::serverlist::{fetched_servers, select_server};
use zxq5chat::frontend::components::signup::{
    signup_result, signup_update, signup_url, validate_signup, SignupUpdate,
};
use zxq5chat::frontend::routes::{api_url, switch, ws_url, Page, Route};
use zxq5chat::frontend::theme::{theme_attribute, theme_choices, Theme, ThemeManager};
use zxq5chat::frontend::websocket::{
    socket_text_update, MessagesAction, MessagesState, RealTimeMessage, SocketUpdate,
};

fn msg(id: i32, content: &str) -> RealTimeMessage {
    RealTimeMessage {
        message_id: id,
        user_id: "u".to_string(),
        display_name: "n".to_string(),
        created_at: 0,
        content: content.to_string(),
    }
}

#[test]
fn theme_names() {
    assert_eq!(Theme::Default.as_str(), "default");
    assert_eq!(Theme::Light.as_str(), "light");
    assert_eq!(Theme::Dark.as_str(), "dark");
    assert_eq!(theme_attribute(), "theme");
    assert_eq!(theme_choices(), vec![Theme::Default, Theme::Light, Theme::Dark]);
}

#[test]
fn theme_manager_starts_default() {
    let m = ThemeManager::new(7u8);
    assert_eq!(m.current, Theme::Default);
    assert_eq!(m.set_theme, 7);
}

#[test]
fn route_titles() {
    assert_eq!(Route::Root.title(), "Home");
    assert_eq!(Route::Chat { id: "x".to_string() }.title(), "Chat");
    assert_eq!(Route::NotFound.title(), "404");
    assert_eq!(Route::MemeLicense { username: "u".to_string() }.title(), "Meme License");
    assert_eq!(Route::Incidents { incident: "i".to_string() }.title(), "Incidents");
    assert_eq!(Route::Logout.title(), "Logout");
}

#[test]
fn pages_of_routes() {
    assert!(matches!(switch(Route::Root), Page::RedirectToLogin));
    assert!(matches!(switch(Route::Login), Page::Login));
    assert!(matches!(switch(Route::Signup), Page::Signup));
    assert!(matches!(switch(Route::Chat { id: "t".to_string() }), Page::Chat { id } if id == "t"));
    assert!(matches!(switch(Route::Profile), Page::NotFound));
    assert!(matches!(switch(Route::Invite), Page::NotFound));
    assert!(matches!(switch(Route::NotFound), Page::NotFound));
    assert!(matches!(
        switch(Route::Incidents { incident: "boats".to_string() }),
        Page::Incidents { incident } if incident == "boats"
    ));
}

#[test]
fn api_addresses() {
    assert_eq!(api_url(true), "http://localhost:8000");
    assert_eq!(api_url(false), "https://api.zxq5.dev");
    assert_eq!(ws_url(true), "ws://localhost:8000");
    assert_eq!(ws_url(false), "wss://api.zxq5.dev");
}

#[test]
fn messages_arrive_in_order() {
    let s = MessagesState::new();
    assert!(s.messages().is_empty());
    let s = s.reduce(MessagesAction::AddMessage(msg(1, "a")));
    let s = s.reduce(MessagesAction::AddMessage(msg(2, "b")));
    let s = s.reduce(MessagesAction::AddMessage(msg(3, "c")));
    let all: Vec<String> = s.messages().into_iter().map(|m| m.content).collect();
    assert_eq!(all, vec!["a", "b", "c"]);
}

#[test]
fn socket_text_updates() {
    match socket_text_update(Some(msg(4, "x"))) {
        SocketUpdate::Dispatch(MessagesAction::AddMessage(m)) => assert_eq!(m.content, "x"),
        SocketUpdate::Error(_) => panic!("expected a dispatch"),
    }
    match socket_text_update(None) {
        SocketUpdate::Error(e) => assert_eq!(e, "Failed to parse message"),
        SocketUpdate::Dispatch(_) => panic!("expected an error"),
    }
}

#[test]
fn button_classes() {
    assert_eq!(button_class(None), "button");
    assert_eq!(button_class(Some("selector-button".to_string())), "selector-button");
}

#[test]
fn chat_texts() {
    assert_eq!(chat_socket_url("ws://localhost:8000", "bob"), "ws://localhost:8000/messenger/connect/1/bob");
    assert!(should_send("hi"));
    assert!(!should_send(""));
    assert_eq!(chat_error_text("closed"), "Error: closed");
    assert_eq!(
        profile_picture_style("http://a", "u1"),
        "background-image: \n                                        url('http://a/static/pfp/u1.png'),\n                                        url('http://a/static/public/default_pfp.png')"
    );
}

#[test]
fn incidents() {
    let (t, b) = incident_content(&"boats".to_string());
    assert_eq!(t, "The Boat Incident.");
    assert!(b.starts_with("the boat incident involved many boats"));
    let (t2, b2) = incident_content(&"other".to_string());
    assert_eq!(t2, "");
    assert_eq!(b2, "");
}

#[test]
fn meme_license_page() {
    let f = license_fields("zed");
    assert_eq!(f.len(), 4);
    assert_eq!(f[0], ("Username".to_string(), "zed".to_string()));
    assert_eq!(f[1], ("Valid From".to_string(), "2024".to_string()));
    assert_eq!(f[2], ("Expires".to_string(), "2026".to_string()));
    assert_eq!(f[3], ("Issuer".to_string(), "Steven".to_string()));
    assert_eq!(license_title(), "Meme Stealing License");
    let s = license_picture_style("http://a", "zed");
    assert!(s.starts_with("background-image: \n                            url('http://a/static/pfp/zed.png'),"));
    assert!(s.contains("border-radius: 40px 0px 40px 0px;"));
}

#[test]
fn login_flow() {
    assert_eq!(login_url("http://a"), "http://a/login");
    assert!(login_submission("".to_string(), "p".to_string()).is_none());
    assert!(login_submission("u".to_string(), "".to_string()).is_none());
    let r = login_submission("u".to_string(), "p".to_string()).unwrap();
    assert_eq!(r.username, "u");
    assert_eq!(r.password, "p");
    assert!(login_result(200).is_ok());
    assert_eq!(login_result(401).err().unwrap(), "Login failed");
    assert!(matches!(login_update(Ok(())), LoginUpdate::Navigate(Route::Chat { id }) if id == "test"));
    assert!(matches!(login_update(Err("x".to_string())), LoginUpdate::ShowError));
    assert_eq!(login_error_text(), "Incorrect username or password");
}

#[test]
fn signup_validation() {
    let s = |x: &str| x.to_string();
    assert_eq!(validate_signup(s(""), s("p"), s("p"), s("t")).err().unwrap(), "Please fill in all fields");
    assert_eq!(validate_signup(s("u"), s("p"), s("p"), s("")).err().unwrap(), "Please fill in all fields");
    assert_eq!(validate_signup(s("u"), s(""), s(""), s("t")).err().unwrap(), "Please fill in all fields");
    assert_eq!(validate_signup(s("u"), s("p"), s("q"), s("t")).err().unwrap(), "Passwords do not match");
    let ok = validate_signup(s("u"), s("p"), s("p"), s("t")).ok().unwrap();
    assert_eq!(ok.username, "u");
    assert_eq!(ok.password, "p");
    assert_eq!(ok.token, "t");
}

#[test]
fn signup_results() {
    assert_eq!(signup_url("http://a"), "http://a/signup");
    assert!(signup_result(200).is_ok());
    assert_eq!(signup_result(409).err().unwrap(), "Username already exists");
    assert_eq!(signup_result(500).err().unwrap(), "Signup failed with status code 500");
    assert_eq!(signup_result(0).err().unwrap(), "Signup failed with status code 0");
    assert!(matches!(signup_update(Ok(())), SignupUpdate::Navigate(Route::Chat { id }) if id == "test"));
    assert!(matches!(signup_update(Err(s_("boom"))), SignupUpdate::ShowError(e) if e == "boom"));
}

fn s_(x: &str) -> String {
    x.to_string()
}

#[test]
fn navbar_choices() {
    assert_eq!(brand(), "ZXQ5.Dev");
    let c = account_choices();
    assert_eq!(c.len(), 2);
    assert!(matches!(c[0], Route::Login));
    assert!(matches!(c[1], Route::Signup));
}

#[test]
fn server_list_updates() {
    let srv = |i: &str| Server { id: i.to_string(), name: format!("S{}", i) };
    assert!(fetched_servers(None).is_empty());
    let v = fetched_servers(Some(vec![srv("0"), srv("1")]));
    assert_eq!(v.len(), 2);
    assert_eq!(v[1].name, "S1");
    let one = select_server(srv("3"));
    assert_eq!(one.len(), 1);
    assert_eq!(one[0].id, "3");
}
