use application_boot::application::RustApplication;
use application_boot::event::ApplicationEvenType;
use application_boot::lifecycle::WebApplicationType;
use application_boot::multicaster::{ApplicationEventMultiCaster, ListenerRegistration};

fn listener(name: &str, accepts: Vec<ApplicationEvenType>) -> ListenerRegistration {
    ListenerRegistration { name: name.to_string(), accepts }
}

fn run(bus: &ApplicationEventMultiCaster, event: ApplicationEvenType, fail: &[usize]) -> Vec<usize> {
    let mut d = bus.multicast_event(event);
    let mut ran = Vec::new();
    while let Some(i) = d.next_listener() {
        ran.push(i);
        d.record(!fail.contains(&i));
    }
    assert!(d.is_complete());
    ran
}

#[test]
fn failing_listener_does_not_stop_dispatch() {
    let mut bus = ApplicationEventMultiCaster::new();
    bus.register(listener("L1", vec![ApplicationEvenType::Started]));
    bus.register(listener("L2", vec![ApplicationEvenType::Started]));
    bus.register(listener("L3", vec![ApplicationEvenType::Started]));
    let mut d = bus.multicast_event(ApplicationEvenType::Started);
    let mut ran = Vec::new();
    let mut failed = Vec::new();
    while let Some(i) = d.next_listener() {
        ran.push(bus.listener(i).name.clone());
        let ok = i != 1;
        if !ok {
            failed.push(i);
        }
        d.record(ok);
    }
    assert_eq!(ran, vec!["L1", "L2", "L3"]);
    assert_eq!(failed, vec![1]);
    assert!(d.is_complete());
}

#[test]
fn only_accepting_listeners_run() {
    let mut bus = ApplicationEventMultiCaster::new();
    bus.register(listener("a", vec![ApplicationEvenType::Starting]));
    bus.register(listener("b", vec![ApplicationEvenType::Stopped, ApplicationEvenType::Starting]));
    bus.register(listener("c", vec![ApplicationEvenType::Stopped]));
    assert_eq!(run(&bus, ApplicationEvenType::Starting, &[]), vec![0, 1]);
    assert_eq!(run(&bus, ApplicationEvenType::Stopped, &[1]), vec![1, 2]);
    assert_eq!(run(&bus, ApplicationEvenType::Failed, &[]), Vec::<usize>::new());
}

#[test]
fn dispatch_without_listeners_is_noop() {
    let bus = ApplicationEventMultiCaster::new();
    let d = bus.multicast_event(ApplicationEvenType::Starting);
    assert!(d.is_complete());
    assert_eq!(d.next_listener(), None);
}

#[test]
fn builtin_listeners_in_order() {
    let app = RustApplication::new("demo", WebApplicationType::WEB);
    assert_eq!(run(&app.listeners, ApplicationEvenType::Starting, &[]), vec![0, 1]);
    assert_eq!(run(&app.listeners, ApplicationEvenType::EnvironmentPrepared, &[]), vec![2]);
    assert_eq!(run(&app.listeners, ApplicationEvenType::Started, &[]), vec![3]);
    assert_eq!(run(&app.listeners, ApplicationEvenType::Stopped, &[4]), vec![4, 5]);
    let names: Vec<String> = (0..6).map(|i| app.listeners.listener(i).name.clone()).collect();
    assert_eq!(
        names,
        vec![
            "LoggingApplicationListener",
            "ApplicationStartingEventListener",
            "BootstrapConfigFileApplicationListener",
            "DiscoveryRegistryApplicationListener",
            "DiscoveryDeRegistryApplicationListener",
            "LoggingCleanApplicationListener",
        ]
    );
}
