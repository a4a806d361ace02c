use chat_relay::config::{parse_port, Config, ConfigError, DEFAULT_PORT};

fn some(text: &str) -> Option<String> {
    Some(text.to_string())
}

#[test]
fn all_values_given() {
    let config = Config::from_values(some("token"), some("http://backend/chat"), some("9000")).unwrap();
    assert_eq!(
        config,
        Config {
            credential: "token".to_string(),
            backend_url: "http://backend/chat".to_string(),
            port: 9000,
        }
    );
}

#[test]
fn absent_port_means_8080() {
    let config = Config::from_values(some("token"), some("url"), None).unwrap();
    assert_eq!(config.port, 8080);
    assert_eq!(DEFAULT_PORT, 8080);
}

#[test]
fn missing_credential() {
    assert_eq!(
        Config::from_values(None, some("url"), some("8080")),
        Err(ConfigError::MissingCredential)
    );
}

#[test]
fn missing_backend_url() {
    assert_eq!(
        Config::from_values(some("token"), None, some("8080")),
        Err(ConfigError::MissingBackendUrl)
    );
}

#[test]
fn invalid_port() {
    for text in ["", "abc", "80a", " 80", "80 ", "-1", "0", "65536", "99999999999999999999", "+", "8_080", "٨٠"] {
        assert_eq!(
            Config::from_values(some("token"), some("url"), some(text)),
            Err(ConfigError::InvalidPort),
            "{:?}",
            text
        );
    }
}

#[test]
fn first_fault_is_reported() {
    assert_eq!(Config::from_values(None, None, some("x")), Err(ConfigError::MissingCredential));
    assert_eq!(
        Config::from_values(some("token"), None, some("x")),
        Err(ConfigError::MissingBackendUrl)
    );
}

#[test]
fn ports_that_parse() {
    assert_eq!(parse_port("8080"), Some(8080));
    assert_eq!(parse_port("1"), Some(1));
    assert_eq!(parse_port("65535"), Some(65535));
    assert_eq!(parse_port("+443"), Some(443));
    assert_eq!(parse_port("0080"), Some(80));
    assert_eq!(parse_port("000000000000000000000000000065535"), Some(65535));
}

#[test]
fn ports_that_do_not_parse() {
    assert_eq!(parse_port("0"), None);
    assert_eq!(parse_port("000"), None);
    assert_eq!(parse_port("65536"), None);
    assert_eq!(parse_port("4294967297"), None);
    assert_eq!(parse_port("++1"), None);
    assert_eq!(parse_port("1+"), None);
    assert_eq!(parse_port("12.5"), None);
    assert_eq!(parse_port(""), None);
}

#[test]
fn port_parsing_agrees_with_the_integer_parser() {
    for text in ["1", "22", "+22", "-22", "0", "65535", "65536", "655350", "x", "", "+", "007", "7 "] {
        let expected = text.parse::<u16>().ok().filter(|p| *p > 0);
        assert_eq!(parse_port(text), expected, "{:?}", text);
    }
}

#[test]
fn written_numbers_read_back() {
    for port in [1u16, 9, 10, 99, 100, 8080, 65535] {
        let mut text = String::new();
        chat_relay::text::push_decimal(&mut text, port as u64);
        assert_eq!(parse_port(&text), Some(port));
    }
}
