use veto_frontier::config::{parse_port, split_origins, Config, ConfigError, ConfigVars};
use veto_frontier::ident::Uuid;

fn vars() -> ConfigVars {
    ConfigVars {
        database_url: Some("postgres://localhost/veto".to_string()),
        host: None,
        port: None,
        default_org_id: None,
        cors_allowed_origins: None,
        signing_private_key: None,
        signing_public_key: None,
    }
}

#[test]
fn defaults_apply_to_what_is_not_set() {
    let config = Config::from_vars(&vars()).unwrap();
    assert_eq!(config.database_url, "postgres://localhost/veto");
    assert_eq!(config.host, "127.0.0.1");
    assert_eq!(config.port, 8888);
    let mut one = [0u8; 16];
    one[15] = 1;
    assert_eq!(config.default_org_id, Uuid::from_bytes(one));
    assert_eq!(config.cors_allowed_origins, vec!["http://localhost:3000".to_string()]);
    assert_eq!(config.signing_private_key, None);
    assert_eq!(config.signing_public_key, None);
}

#[test]
fn values_that_are_set_are_taken() {
    let mut v = vars();
    v.host = Some("0.0.0.0".to_string());
    v.port = Some("8080".to_string());
    v.default_org_id = Some("936DA01F9ABD4D9D80C702AF85C822A8".to_string());
    v.cors_allowed_origins = Some(" https://a.example , https://b.example,".to_string());
    v.signing_private_key = Some("priv".to_string());
    v.signing_public_key = Some("pub".to_string());
    let config = Config::from_vars(&v).unwrap();
    assert_eq!(config.host, "0.0.0.0");
    assert_eq!(config.port, 8080);
    assert_eq!(config.default_org_id.to_hyphenated(), "936da01f-9abd-4d9d-80c7-02af85c822a8");
    assert_eq!(
        config.cors_allowed_origins,
        vec!["https://a.example".to_string(), "https://b.example".to_string(), String::new()]
    );
    assert_eq!(config.signing_private_key.as_deref(), Some("priv"));
    assert_eq!(config.signing_public_key.as_deref(), Some("pub"));
}

#[test]
fn each_error_has_its_input() {
    let mut v = vars();
    v.database_url = None;
    v.port = Some("x".to_string());
    assert_eq!(Config::from_vars(&v), Err(ConfigError::MissingDatabaseUrl));
    let mut v = vars();
    v.port = Some("65536".to_string());
    v.default_org_id = Some("x".to_string());
    assert_eq!(Config::from_vars(&v), Err(ConfigError::InvalidPort));
    let mut v = vars();
    v.default_org_id = Some("not-an-id".to_string());
    assert_eq!(Config::from_vars(&v), Err(ConfigError::InvalidOrgId));
}

#[test]
fn ports_are_read_as_the_standard_library_reads_them() {
    let cases = [
        "", "+", "0", "8888", "+80", "0080", "65535", "65536", "99999999999999999999", "-1",
        " 80", "80 ", "8a", "++8", "8+", "٣", "0x10", "000000000000000000000065535",
    ];
    for case in cases {
        assert_eq!(parse_port(case), case.parse::<u16>().ok(), "port {:?}", case);
    }
    assert_eq!(parse_port("443"), Some(443));
    assert_eq!(parse_port("65536"), None);
}

#[test]
fn origins_are_split_as_the_standard_library_splits_them() {
    let cases = ["", ",", "a", "a,b", " a , b ,", ",,", "\ta\n,\u{a0}b\u{3000}", "a b,c"];
    for case in cases {
        let expected: Vec<String> = case.split(',').map(|s| s.trim().to_string()).collect();
        assert_eq!(split_origins(case), expected, "origins {:?}", case);
    }
    assert_eq!(split_origins("x, y"), vec!["x".to_string(), "y".to_string()]);
}
