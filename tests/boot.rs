use application_boot::application::{default_properties_source, refresh, AxumServer, RefreshError, RustApplication};
use application_boot::beans::{Bean, BeanKind};
use application_boot::configuration::Configuration;
use application_boot::discovery::{Registration, RegistrationError};
use application_boot::environment::{PropertySource, PropertyValue};
use application_boot::lifecycle::WebApplicationType;
use application_boot::properties::{
    BootstrapProperties, CloudConfigProperties, CloudProperties, DiscoveryProperties, HostProperties,
    ServerProperties, ServiceCheckProperties, ServiceProperties,
};

fn with_discovery(host: Option<HostProperties>, health: Option<ServiceProperties>) -> BootstrapProperties {
    let mut p = BootstrapProperties::default();
    p.application.name = "svc".to_string();
    p.application.port = Some(8080);
    p.application.cloud = Some(CloudProperties {
        discovery: Some(DiscoveryProperties {
            server: ServerProperties { address: "http://consul:8500".to_string(), token: Some("t".to_string()) },
            host,
            health,
        }),
        config: None,
    });
    p
}

#[test]
fn defaults_of_bootstrap_properties() {
    let p = BootstrapProperties::default();
    assert_eq!(p.application.config.activate.profiles, vec!["default".to_string()]);
    assert_eq!(p.application.config.locations, Some(vec![".".to_string()]));
    assert_eq!(p.application.config.file_names, Some(vec!["config.toml".to_string()]));
    assert_eq!(p.get_application_name(), "");
    assert_eq!(p.get_application_port(), 0);
    assert!(!p.logger.enabled);
    assert_eq!(p.logger.log_dir, "./logs");
}

#[test]
fn bootstrap_context_named_after_crate() {
    let app = RustApplication::new("demo", WebApplicationType::NONE);
    let ctx = app.create_bootstrap_context(BootstrapProperties::default());
    assert_eq!(ctx.get_bootstrap_properties().application.name, "demo");
    assert!(!ctx.is_registered(BeanKind::DiscoveryServer));
    let ctx = app.create_bootstrap_context(with_discovery(None, None));
    assert_eq!(ctx.get_bootstrap_properties().application.name, "svc");
    match ctx.get(BeanKind::DiscoveryServer) {
        Some(Bean::DiscoveryServer(s)) => assert_eq!(s.address, "http://consul:8500"),
        _ => panic!("discovery server not registered"),
    }
}

#[test]
fn default_source_entries() {
    let mut p = with_discovery(None, None);
    p.application.cloud.as_mut().unwrap().config = Some(CloudConfigProperties {
        enabled: true,
        address: "http://cfg".to_string(),
        token: None,
    });
    let s: PropertySource = default_properties_source(&p);
    assert_eq!(s.name, "defaultProperties");
    let keys: Vec<&str> = s.entries.iter().map(|e| e.0.as_str()).collect();
    assert_eq!(
        keys,
        vec![
            "application.name",
            "application.port",
            "application.cloud.discovery.server.address",
            "application.cloud.discovery.server.token",
            "application.cloud.config.enabled",
            "application.cloud.config.address",
        ]
    );
    assert_eq!(s.get_property::<u16>("application.port"), Some(8080));
    let app = RustApplication::new("demo", WebApplicationType::WEB);
    let mut env = app.create_environment(&p);
    app.configure_environment(&mut env, &p);
    assert_eq!(env.get_property::<String>("application.name"), Some("svc".to_string()));
    assert_eq!(
        Configuration::get_remote_config_server(&env),
        Some(("http://cfg".to_string(), None))
    );
}

#[test]
fn refresh_resolves_port_in_server_mode() {
    let p = with_discovery(None, None);
    let app = RustApplication::new("demo", WebApplicationType::WEB);
    let mut env = app.create_environment(&p);
    app.configure_environment(&mut env, &p);
    let ctx = app.create_application_context(env);
    assert_eq!(refresh(&ctx), Ok(Some(AxumServer { port: 8080 })));
    let none = RustApplication::new("demo", WebApplicationType::NONE);
    let ctx = none.create_application_context(none.create_environment(&p));
    assert_eq!(refresh(&ctx), Ok(None));
    let ctx = app.create_application_context(app.create_environment(&p));
    assert_eq!(refresh(&ctx), Err(RefreshError::MissingPort));
}

#[test]
fn context_id_from_application_name() {
    let p = with_discovery(None, None);
    let app = RustApplication::new("demo", WebApplicationType::NONE);
    let mut env = app.create_environment(&p);
    app.configure_environment(&mut env, &p);
    let mut ctx = app.create_application_context(env);
    let boot = app.create_bootstrap_context(p.clone());
    app.prepare_context(&mut ctx, boot);
    match ctx.get_bean_factory().try_get(BeanKind::ContextId) {
        Some(Bean::ContextId(c)) => assert_eq!(c.id, "svc"),
        _ => panic!("no context id"),
    }
    assert!(ctx.get_bootstrap_context().is_some());
    assert_eq!(ctx.get_application_name(), "svc");

    let mut bare = app.create_application_context(app.create_environment(&p));
    app.prepare_context(&mut bare, app.create_bootstrap_context(p.clone()));
    match bare.get_bean_factory().try_get(BeanKind::ContextId) {
        Some(Bean::ContextId(c)) => assert_eq!(c.id, "application"),
        _ => panic!("no context id"),
    }
}

#[test]
fn registration_from_host_name() {
    let p = with_discovery(None, None);
    let r = Registration::from_properties(&p, Some("box".to_string()), &"10.0.0.1".to_string()).unwrap();
    assert_eq!(r.service_instance.instance_id, "svc@box:8080");
    assert_eq!(r.service_instance.service_id, "svc");
    assert_eq!(r.service_instance.schema, "http");
    assert!(!r.service_instance.is_secure);
    assert_eq!(r.service_check.address, Some("http://box:8080/actuator/health".to_string()));
    assert_eq!(r.service_check.interval, Some("30s".to_string()));
    let r = Registration::from_properties(&p, None, &"10.0.0.1".to_string()).unwrap();
    assert_eq!(r.service_instance.host, "10.0.0.1");
}

#[test]
fn registration_with_configured_host_and_check() {
    let p = with_discovery(
        Some(HostProperties { ip: "1.2.3.4".to_string(), port: 443 }),
        Some(ServiceProperties {
            check: ServiceCheckProperties { path: "health".to_string(), interval: "5s".to_string() },
        }),
    );
    let r = Registration::from_properties(&p, Some("box".to_string()), &"x".to_string()).unwrap();
    assert_eq!(r.service_instance.instance_id, "svc@1.2.3.4:443");
    assert_eq!(r.service_instance.port, 443);
    assert_eq!(r.service_instance.schema, "https");
    assert!(r.service_instance.is_secure);
    assert_eq!(r.service_check.address, Some("https://1.2.3.4:443/health".to_string()));
    assert_eq!(r.service_check.interval, Some("5s".to_string()));
}

#[test]
fn registration_errors() {
    let p = BootstrapProperties::default();
    assert_eq!(
        Registration::from_properties(&p, None, &"x".to_string()).err(),
        Some(RegistrationError::NotConfigured)
    );
    let mut p = with_discovery(None, None);
    p.application.port = None;
    assert_eq!(
        Registration::from_properties(&p, None, &"x".to_string()).err(),
        Some(RegistrationError::MissingPort)
    );
}

#[test]
fn property_value_kinds() {
    let s = PropertySource {
        name: "s".to_string(),
        entries: vec![("b".to_string(), PropertyValue::Bool(true)), ("n".to_string(), PropertyValue::Integer(-5))],
    };
    assert_eq!(s.get_property::<bool>("b"), Some(true));
    assert_eq!(s.get_property::<i32>("n"), Some(-5));
    assert_eq!(s.get_property::<u16>("n"), None);
    assert_eq!(s.get_property::<String>("b"), None);
}

#[test]
fn registration_for_this_machine() {
    let p = with_discovery(Some(HostProperties { ip: "9.9.9.9".to_string(), port: 80 }), None);
    let r = Registration::for_local_host(&p, &"10.0.0.1".to_string()).unwrap();
    assert_eq!(r.service_instance.instance_id, "svc@9.9.9.9:80");
    assert_eq!(
        Registration::for_local_host(&BootstrapProperties::default(), &"x".to_string()).err(),
        Some(RegistrationError::NotConfigured)
    );
}

#[test]
fn defaults_appended_after_existing_sources() {
    let p = with_discovery(None, None);
    let app = RustApplication::new("demo", WebApplicationType::WEB);
    let mut env = app.create_environment(&p);
    env.add_property_source(PropertySource {
        name: "first".to_string(),
        entries: vec![("application.port".to_string(), PropertyValue::Integer(9000))],
    });
    app.configure_environment(&mut env, &p);
    let names: Vec<String> =
        env.get_property_sources().get_sources().iter().map(|s| s.name.clone()).collect();
    assert_eq!(names, vec!["first".to_string(), "defaultProperties".to_string()]);
    assert_eq!(env.get_property::<u16>("application.port"), Some(9000));
}
