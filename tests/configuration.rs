use price_feed::configuration::{ApplicationSetting, Environment, GeckoClientSetting};
use std::time::Duration;

#[test]
fn environment_names() {
    assert_eq!(Environment::Local.as_str(), "local");
    assert_eq!(Environment::Production.as_str(), "production");
    assert_eq!(Environment::parse("local"), Ok(Environment::Local));
    assert_eq!(Environment::parse("production"), Ok(Environment::Production));
    assert_eq!(Environment::parse("staging"), Err("Unknown environment: staging".to_string()));
}

#[test]
fn application_url() {
    let a = ApplicationSetting {
        host: "127.0.0.1".to_string(),
        port: 8000,
        base_url: "http://127.0.0.1".to_string(),
    };
    assert_eq!(a.url(), "127.0.0.1:8000");
    let b = ApplicationSetting { host: "0.0.0.0".to_string(), port: 0, base_url: String::new() };
    assert_eq!(b.url(), "0.0.0.0:0");
}

#[test]
fn gecko_timeout() {
    let g = GeckoClientSetting { url: "http://localhost".to_string(), timeout_milliseconds: 2500 };
    assert_eq!(g.timeout(), Duration::from_millis(2500));
    assert_ne!(g.timeout(), Duration::from_millis(2501));
}
