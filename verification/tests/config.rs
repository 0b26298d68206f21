use session_auth::config::{lookup, lookup_or, origins, starts_with, Config};

fn vars(pairs: &[(&str, &str)]) -> Vec<(String, String)> {
    pairs.iter().map(|(name, value)| (name.to_string(), value.to_string())).collect()
}

#[test]
fn the_database_must_be_given() {
    assert_eq!(Config::new(&vars(&[])), None);
    assert_eq!(Config::new(&vars(&[("HOST", "h"), ("PORT", "1")])), None);
    assert_eq!(Config::new(&vars(&[("database_url", "x")])), None);
}

#[test]
fn the_rest_has_defaults() {
    let config = Config::new(&vars(&[("DATABASE_URL", "postgres://db")])).expect("a configuration");
    assert_eq!(
        config,
        Config {
            host: "127.0.0.1".to_string(),
            port: "9099".to_string(),
            database_url: "postgres://db".to_string(),
            access_token_secret: "secret".to_string(),
            refresh_token_secret: "secret".to_string(),
            frontend_origins: Vec::new(),
        }
    );
}

#[test]
fn what_is_given_is_taken() {
    let config = Config::new(&vars(&[
        ("PATH", "/bin"),
        ("FRONTEND_ORIGIN_B", "https://b.example"),
        ("HOST", "0.0.0.0"),
        ("PORT", "80"),
        ("DATABASE_URL", "postgres://db"),
        ("ACCESS_TOKEN_SECRET", "one"),
        ("REFRESH_TOKEN_SECRET", "two"),
        ("FRONTEND_ORIGIN_A", "https://a.example"),
        ("FRONTEND_ORIGIN", "https://no.example"),
        ("XFRONTEND_ORIGIN_", "https://no.example"),
        ("FRONTEND_ORIGIN_", "https://bare.example"),
    ]))
    .expect("a configuration");
    assert_eq!(config.host, "0.0.0.0");
    assert_eq!(config.port, "80");
    assert_eq!(config.database_url, "postgres://db");
    assert_eq!(config.access_token_secret, "one");
    assert_eq!(config.refresh_token_secret, "two");
    assert_eq!(
        config.frontend_origins,
        vec![
            "https://b.example".to_string(),
            "https://a.example".to_string(),
            "https://bare.example".to_string()
        ]
    );
}

#[test]
fn the_first_of_two_variables_of_one_name_counts() {
    let vars = vars(&[("HOST", "first"), ("DATABASE_URL", "a"), ("HOST", "second"), ("DATABASE_URL", "b")]);
    assert_eq!(lookup(&vars, "HOST"), Some("first".to_string()));
    let config = Config::new(&vars).expect("a configuration");
    assert_eq!(config.host, "first");
    assert_eq!(config.database_url, "a");
}

#[test]
fn lookup_finds_by_the_whole_name() {
    let vars = vars(&[("HOSTNAME", "x"), ("HOST", "y"), ("", "z")]);
    assert_eq!(lookup(&vars, "HOST"), Some("y".to_string()));
    assert_eq!(lookup(&vars, "HOS"), None);
    assert_eq!(lookup(&vars, "host"), None);
    assert_eq!(lookup(&vars, ""), Some("z".to_string()));
    assert_eq!(lookup_or(&vars, "HOST", "d"), "y");
    assert_eq!(lookup_or(&vars, "PORT", "d"), "d");
}

#[test]
fn origins_keep_the_order_of_the_environment() {
    let vars = vars(&[
        ("FRONTEND_ORIGIN_2", "two"),
        ("OTHER", "x"),
        ("FRONTEND_ORIGIN_1", "one"),
        ("frontend_origin_3", "three"),
        ("FRONTEND_ORIGIN_1", "one"),
    ]);
    assert_eq!(origins(&vars), vec!["two".to_string(), "one".to_string(), "one".to_string()]);
    assert_eq!(origins(&Vec::new()), Vec::<String>::new());
}

#[test]
fn starts_with_compares_characters() {
    assert!(starts_with("FRONTEND_ORIGIN_A", "FRONTEND_ORIGIN_"));
    assert!(starts_with("abc", ""));
    assert!(starts_with("", ""));
    assert!(starts_with("abc", "abc"));
    assert!(!starts_with("ab", "abc"));
    assert!(!starts_with("abd", "abc"));
    assert!(!starts_with("", "a"));
    assert!(starts_with("\u{e9}t\u{e9}", "\u{e9}t"));
    assert!(!starts_with("\u{e9}t\u{e9}", "e"));
}

#[test]
fn an_origin_may_call_if_it_is_listed() {
    let config = Config::new(&vars(&[
        ("DATABASE_URL", "postgres://db"),
        ("FRONTEND_ORIGIN_A", "https://a.example"),
        ("FRONTEND_ORIGIN_B", "http://localhost:3000"),
    ]))
    .expect("a configuration");
    assert!(config.allows_origin("https://a.example"));
    assert!(config.allows_origin("http://localhost:3000"));
    assert!(!config.allows_origin("https://a.example/"));
    assert!(!config.allows_origin("https://A.example"));
    assert!(!config.allows_origin("https://c.example"));
    assert!(!config.allows_origin(""));
}

#[test]
fn without_origins_none_may_call() {
    let config = Config::new(&vars(&[("DATABASE_URL", "postgres://db")])).expect("a configuration");
    assert!(!config.allows_origin("https://a.example"));
    assert!(!config.allows_origin(""));
}
