use proximity_service::settings::{ConfigSource, Settings};

fn settings() -> Settings {
    Settings {
        host: String::from("127.0.0.1"),
        port: 8080,
        database_url: String::from("postgres://localhost/proximity"),
        db_max_connections: 5,
        honeycomb_api_key: Some(String::from("key")),
        honeycomb_dataset: Some(String::from("dataset")),
        honeycomb_host: Some(String::from("https://api.honeycomb.io")),
        honeycomb_port: Some(String::from("443")),
    }
}

fn file(name: &str, required: bool) -> ConfigSource {
    ConfigSource::File { name: name.to_string(), required }
}

#[test]
fn sources_default_to_development() {
    assert_eq!(
        Settings::sources(None),
        vec![
            file("config/default", true),
            file("config/local", false),
            file("config/development", false),
            ConfigSource::Environment,
        ]
    );
}

#[test]
fn sources_follow_the_run_mode() {
    assert_eq!(
        Settings::sources(Some(String::from("production"))),
        vec![
            file("config/default", true),
            file("config/local", false),
            file("config/production", false),
            ConfigSource::Environment,
        ]
    );
}

#[test]
fn environment_is_the_highest_layer() {
    let sources = Settings::sources(Some(String::from("test")));
    assert_eq!(sources.last(), Some(&ConfigSource::Environment));
    assert_eq!(sources.first(), Some(&file("config/default", true)));
}

#[test]
fn settings_hold_without_an_exporter() {
    let mut bare = settings();
    bare.honeycomb_api_key = None;
    bare.honeycomb_dataset = None;
    bare.honeycomb_host = None;
    bare.honeycomb_port = None;
    assert_eq!(bare.bind_address(), "127.0.0.1:8080");
}

#[test]
fn bind_address_is_host_colon_port() {
    assert_eq!(settings().bind_address(), "127.0.0.1:8080");
    let mut zero = settings();
    zero.port = 0;
    zero.host = String::from("localhost");
    assert_eq!(zero.bind_address(), "localhost:0");
    zero.port = u16::MAX;
    assert_eq!(zero.bind_address(), "localhost:65535");
}
