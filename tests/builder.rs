use ngrok::builder::{builder, Builder, Protocol};
use ngrok::discovery::DISCOVERY_TIMEOUT_MS;
use ngrok::error::Error;

#[test]
fn empty_builder_lacks_protocol() {
    assert_eq!(builder().config().unwrap_err(), Error::MissingProtocol);
    assert_eq!(Builder::new().config().unwrap_err(), Error::MissingProtocol);
}

#[test]
fn port_without_protocol_is_rejected() {
    assert_eq!(builder().port(3030).config().unwrap_err(), Error::MissingProtocol);
}

#[test]
fn protocol_without_port_is_rejected() {
    assert_eq!(builder().https().config().unwrap_err(), Error::MissingPort);
    assert_eq!(builder().http().executable("./ngrok").config().unwrap_err(), Error::MissingPort);
}

#[test]
fn complete_builder_gives_config() {
    let config = builder().executable("./ngrok").https().port(3030).config().unwrap();
    assert_eq!(config.protocol, Protocol::Https);
    assert_eq!(config.port, 3030);
    assert_eq!(config.executable, "./ngrok");
}

#[test]
fn executable_defaults_to_ngrok() {
    let config = builder().http().port(8080).config().unwrap();
    assert_eq!(config.executable, "ngrok");
    assert_eq!(config.protocol, Protocol::Http);
}

#[test]
fn setters_change_the_builder_in_place() {
    let mut b = builder();
    b.https();
    b.port(4000);
    let config = b.config().unwrap();
    assert_eq!(config.port, 4000);
    assert_eq!(config.protocol, Protocol::Https);
}

#[test]
fn later_settings_win() {
    let config = builder().http().https().port(1).port(65535).config().unwrap();
    assert_eq!(config.protocol, Protocol::Https);
    assert_eq!(config.port, 65535);
}

#[test]
fn args_name_protocol_then_port() {
    let config = builder().https().port(3030).config().unwrap();
    assert_eq!(config.args(), vec!["https".to_string(), "3030".to_string()]);
    let config = builder().http().port(0).config().unwrap();
    assert_eq!(config.args(), vec!["http".to_string(), "0".to_string()]);
}

#[test]
fn protocol_words_and_prefixes() {
    assert_eq!(Protocol::Http.word(), "http");
    assert_eq!(Protocol::Https.word(), "https");
    assert_eq!(Protocol::Http.scheme_prefix(), "http://");
    assert_eq!(Protocol::Https.scheme_prefix(), "https://");
}

#[test]
fn default_builder_is_empty() {
    assert_eq!(Builder::default().config().unwrap_err(), Error::MissingProtocol);
}

#[test]
fn discovery_timeout_defaults_and_can_be_set() {
    let config = builder().https().port(3030).config().unwrap();
    assert_eq!(config.timeout_ms, DISCOVERY_TIMEOUT_MS);
    assert_eq!(config.timeout_ms, 5000);
    let config = builder().https().discovery_timeout(2000).port(3030).config().unwrap();
    assert_eq!(config.timeout_ms, 2000);
}
