use envconfig::{Config, Envconfig, Error, Source};

fn source_of(pairs: &[(&str, &str)]) -> Source {
    let mut source = Source::new();
    for (key, value) in pairs {
        source.insert(key, value);
    }
    source
}

#[test]
fn config_is_read_from_port_and_host() {
    let source = source_of(&[("PORT", "8080"), ("HOST", "example.org")]);
    let config = Config::init_from_hashmap(&source).unwrap();
    assert_eq!(config.port, 8080u16);
    assert_eq!(config.host, "example.org");
}

#[test]
fn config_reports_the_first_missing_key() {
    let source = source_of(&[("HOST", "example.org")]);
    let err = Config::init_from_hashmap(&source).err().unwrap();
    assert_eq!(err, Error::EnvVarMissing { name: "PORT".to_string() });
}

#[test]
fn config_with_prefix_reads_prefixed_keys() {
    let source = source_of(&[("APP_PORT", "1"), ("APP_HOST", "h"), ("PORT", "2")]);
    let config = Config::init_from_hashmap_with_prefix("APP_", &source).unwrap();
    assert_eq!(config, Config { port: 1, host: "h".to_string() });
}
