use rs_bff::config::{Config, ServiceConfig, TargetServices};
use rs_bff::error::AppError;

fn service(name: &str, target: &str) -> ServiceConfig {
    ServiceConfig { name: name.to_string(), target: target.to_string() }
}

fn config(services: Vec<ServiceConfig>) -> Config {
    Config {
        app_debug: true,
        app_port: 8080,
        monitor_port: 8091,
        log_level: "info".to_string(),
        graceful_wait_time: 5,
        services,
    }
}

fn readme_config() -> Config {
    config(vec![
        service("greeter-svc", "http://127.0.0.1:50051"),
        service("user", "http://127.0.0.1:50052"),
    ])
}

#[test]
fn get_service_target_finds_configured_service() {
    let c = readme_config();
    assert_eq!(c.get_service_target("user"), Ok("http://127.0.0.1:50052".to_string()));
    assert_eq!(c.get_service_target("greeter-svc"), Ok("http://127.0.0.1:50051".to_string()));
}

#[test]
fn get_service_target_missing_service_is_internal_error() {
    let c = readme_config();
    assert_eq!(
        c.get_service_target("order"),
        Err(AppError::Internal("service 'order' not found in config".to_string()))
    );
}

#[test]
fn get_service_target_on_empty_config_fails() {
    let c = config(vec![]);
    assert_eq!(
        c.get_service_target(""),
        Err(AppError::Internal("service '' not found in config".to_string()))
    );
}

#[test]
fn get_service_target_takes_first_of_duplicates() {
    let c = config(vec![service("a", "first"), service("b", "x"), service("a", "second")]);
    assert_eq!(c.get_service_target("a"), Ok("first".to_string()));
}

#[test]
fn get_service_target_is_case_sensitive() {
    let c = readme_config();
    assert!(c.get_service_target("User").is_err());
}

#[test]
fn service_map_holds_every_name() {
    let c = readme_config();
    let m = c.service_map();
    assert_eq!(m.len(), 2);
    assert_eq!(m.get("greeter-svc"), Some(&"http://127.0.0.1:50051".to_string()));
    assert_eq!(m.get("user"), Some(&"http://127.0.0.1:50052".to_string()));
    assert_eq!(m.get("order"), None);
}

#[test]
fn service_map_keeps_last_of_duplicates() {
    let c = config(vec![service("a", "first"), service("b", "x"), service("a", "second")]);
    let m = c.service_map();
    assert_eq!(m.len(), 2);
    assert_eq!(m.get("a"), Some(&"second".to_string()));
}

#[test]
fn service_map_and_lookup_agree_on_distinct_names() {
    let c = readme_config();
    let m = c.service_map();
    for name in ["greeter-svc", "user", "order", ""] {
        match c.get_service_target(name) {
            Ok(t) => assert_eq!(m.get(name), Some(&t)),
            Err(_) => assert_eq!(m.get(name), None),
        }
    }
}

#[test]
fn target_services_takes_greeter_address() {
    let c = readme_config();
    assert_eq!(
        TargetServices::from_config(&c),
        Ok(TargetServices { greeter_addr: "http://127.0.0.1:50051".to_string() })
    );
}

#[test]
fn target_services_without_greeter_fails() {
    let c = config(vec![service("user", "http://127.0.0.1:50052")]);
    assert_eq!(
        TargetServices::from_config(&c),
        Err(AppError::Internal("service 'greeter-svc' not found in config".to_string()))
    );
}

#[test]
fn listen_address_uses_app_port() {
    assert_eq!(readme_config().listen_address(), "0.0.0.0:8080");
    let mut c = readme_config();
    c.app_port = 0;
    assert_eq!(c.listen_address(), "0.0.0.0:0");
    c.app_port = u16::MAX;
    assert_eq!(c.listen_address(), "0.0.0.0:65535");
}

#[test]
fn lookup_and_map_differ_on_duplicate_names() {
    let c = config(vec![service("a", "first"), service("a", "second")]);
    let m = c.service_map();
    assert!(c.get_service_target("a").is_ok());
    assert!(m.get("a").is_some());
    assert_ne!(c.get_service_target("a").ok(), m.get("a").cloned());
}
