use application_boot::logging::{is_expired, LoggerConfig, LOG_RETENTION_DAYS};
use application_boot::startup::{DefaultApplicationStartup, StandardStartup, Task};
use application_boot::text::to_decimal;
use application_boot::web::{DbConnection, RespBody, CODE_FAILURE, CODE_SUCCESS};
use application_boot::application::RustApplication;
use application_boot::environment::{PropertySource, PropertyValue};
use application_boot::lifecycle::WebApplicationType;
use application_boot::properties::BootstrapProperties;

#[test]
fn decimal_digits() {
    assert_eq!(to_decimal(0), "0");
    assert_eq!(to_decimal(8080), "8080");
    assert_eq!(to_decimal(u64::MAX), u64::MAX.to_string());
}

#[test]
fn db_url_with_and_without_args() {
    let mut c = DbConnection {
        host: "h".to_string(),
        port: 3306,
        user: "u".to_string(),
        password: "p".to_string(),
        name: "db".to_string(),
        kind: "mysql".to_string(),
        args: None,
    };
    assert_eq!(c.to_url(), "mysql://u:p@h:3306/db");
    c.args = Some("ssl=true".to_string());
    assert_eq!(c.to_url(), "mysql://u:p@h:3306/db?ssl=true");
}

#[test]
fn response_bodies() {
    let ok: RespBody<u32> = RespBody::result(&Ok(7));
    assert_eq!(ok.code, Some(CODE_SUCCESS));
    assert_eq!(ok.data, Some(7));
    assert_eq!(ok.msg, None);
    let err: RespBody<u32> = RespBody::result(&Err("boom".to_string()));
    assert_eq!(err.code, Some(CODE_FAILURE));
    assert_eq!(err.msg, Some("boom".to_string()));
    assert_eq!(err.data, None);
    let e: RespBody<u32> = RespBody::error("bad");
    assert_eq!((e.code, e.msg), (Some(-1), Some("bad".to_string())));
    let i: RespBody<u32> = RespBody::code_info(3, "x");
    assert_eq!((i.code, i.msg, i.data), (Some(3), Some("x".to_string()), None));
    let f: RespBody<u32> = RespBody::fail_info("f");
    assert_eq!(f.code, Some(-1));
    let s: RespBody<u32> = RespBody::success_info("s");
    assert_eq!((s.code, s.msg), (Some(0), Some("s".to_string())));
    let d: RespBody<String> = RespBody::success(&"v".to_string());
    assert_eq!(d.data, Some("v".to_string()));
}

#[test]
fn log_expiry() {
    let day = 86400;
    assert!(is_expired(0, LOG_RETENTION_DAYS * day + 1, LOG_RETENTION_DAYS));
    assert!(!is_expired(0, LOG_RETENTION_DAYS * day, LOG_RETENTION_DAYS));
    assert!(!is_expired(u64::MAX, u64::MAX, 7));
}

#[test]
fn logger_config_from_environment() {
    let app = RustApplication::new("demo", WebApplicationType::NONE);
    let p = BootstrapProperties::default();
    let mut env = app.create_environment(&p);
    let c = LoggerConfig::get_config(&env);
    assert!(!c.enabled);
    assert_eq!(c.level, "info");
    env.add_property_source(PropertySource {
        name: "logs".to_string(),
        entries: vec![
            ("logger.enabled".to_string(), PropertyValue::Bool(true)),
            ("logger.level".to_string(), PropertyValue::Text("debug".to_string())),
            ("logger.file".to_string(), PropertyValue::Text("app".to_string())),
            ("logger.log_dir".to_string(), PropertyValue::Text("/var/log".to_string())),
        ],
    });
    let c = LoggerConfig::get_config(&env);
    assert!(c.enabled);
    assert_eq!(c.level, "debug");
    assert_eq!(c.log_dir, "/var/log");
    let from = LoggerConfig::from_properties(&p.logger);
    assert_eq!(from.file, "info");
}

#[test]
fn startup_time_taken() {
    let mut s = StandardStartup::new(1000);
    s.started(1500);
    assert_eq!(s.get_process_up_time(), 500);
    s.started(10);
    assert_eq!(s.get_process_up_time(), 0);
    assert_eq!(s.get_start_time(), 1000);
    let step = DefaultApplicationStartup.start("application.starting");
    assert_eq!(step.get_name(), "application.starting");
    assert_eq!(step.get_id(), 0);
    assert_eq!(step.get_parent_id(), None);
    assert!(step.get_tags().is_empty());
    let t = Task::new(42u8);
    assert_eq!(*t.get_runnable(), 42);
}
