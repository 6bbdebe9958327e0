use life_tracker::auth::bearer_token;
use life_tracker::settings::{bind_address, Database, WebConfig};

#[test]
fn bearer_token_strips_prefix() {
    assert_eq!(bearer_token("Bearer abc.def.ghi"), Some("abc.def.ghi".to_string()));
    assert_eq!(bearer_token("Bearer "), Some(String::new()));
    assert_eq!(bearer_token("bearer abc"), None);
    assert_eq!(bearer_token("Bearer"), None);
    assert_eq!(bearer_token("Basic abc"), None);
    assert_eq!(bearer_token(""), None);
}

#[test]
fn bind_address_joins_host_and_port() {
    let web = WebConfig {
        host: "127.0.0.1".into(),
        port: "8080".into(),
        context_path: "/tracker".into(),
        cookie_key: "k".into(),
        login_url: "/tracker/app/login".into(),
    };
    assert_eq!(bind_address(&web), "127.0.0.1:8080");
    let db = Database { url: "db.sqlite".into(), migration: "migrations".into() };
    assert_eq!(db.url, "db.sqlite");
}
