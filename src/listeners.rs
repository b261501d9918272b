//! The built-in listeners: each reacts to one event kind.
use vstd::prelude::*;
use crate::event::ApplicationEvenType;
use crate::multicaster::{ListenerRegistration, accepts};
use crate::beans::{Bean, BeanKind, lookup};
use crate::context::DefaultBootstrapContext;
use crate::discovery::Registration;
use crate::properties::BootstrapProperties;

verus! {

/// Sets up logging when the application starts.
pub struct LoggingApplicationListener {}

/// Logs that the application is starting.
pub struct ApplicationStartingEventListener {}

/// Loads native and remote configuration once the environment is prepared.
pub struct BootstrapConfigFileApplicationListener {}

/// Registers the instance with the discovery backend once started.
pub struct DiscoveryRegistryApplicationListener {}

/// Deregisters the instance when the application stops.
pub struct DiscoveryDeRegistryApplicationListener {}

/// Removes old log files when the application stops.
pub struct LoggingCleanApplicationListener {}

/// A listener registration that accepts exactly `event`.
fn single_event_registration(name: &str, event: ApplicationEvenType) -> (r: ListenerRegistration)
    ensures
        r.name@ == name@,
        forall|e: ApplicationEvenType| accepts(r, e) <==> e == event,
{
    let r = ListenerRegistration { name: String::from_str(name), accepts: vec![event] };
    assert forall|e: ApplicationEvenType| accepts(r, e) <==> e == event by {
        if e == event {
            assert(r.accepts@[0] == e);
        }
    }
    r
}

impl LoggingApplicationListener {
    pub fn is_support(&self, event: ApplicationEvenType) -> (r: bool)
        ensures
            r == (event == ApplicationEvenType::Starting),
    {
        event == ApplicationEvenType::Starting
    }

    pub fn registration(&self) -> (r: ListenerRegistration)
        ensures
            r.name@ == ("LoggingApplicationListener")@,
            forall|e: ApplicationEvenType| accepts(r, e) <==> e == ApplicationEvenType::Starting,
    {
        single_event_registration("LoggingApplicationListener", ApplicationEvenType::Starting)
    }
}

impl ApplicationStartingEventListener {
    pub fn is_support(&self, event: ApplicationEvenType) -> (r: bool)
        ensures
            r == (event == ApplicationEvenType::Starting),
    {
        event == ApplicationEvenType::Starting
    }

    pub fn registration(&self) -> (r: ListenerRegistration)
        ensures
            r.name@ == ("ApplicationStartingEventListener")@,
            forall|e: ApplicationEvenType| accepts(r, e) <==> e == ApplicationEvenType::Starting,
    {
        single_event_registration("ApplicationStartingEventListener", ApplicationEvenType::Starting)
    }
}

impl BootstrapConfigFileApplicationListener {
    pub fn is_support(&self, event: ApplicationEvenType) -> (r: bool)
        ensures
            r == (event == ApplicationEvenType::EnvironmentPrepared),
    {
        event == ApplicationEvenType::EnvironmentPrepared
    }

    pub fn registration(&self) -> (r: ListenerRegistration)
        ensures
            r.name@ == ("BootstrapConfigFileApplicationListener")@,
            forall|e: ApplicationEvenType|
                accepts(r, e) <==> e == ApplicationEvenType::EnvironmentPrepared,
    {
        single_event_registration(
            "BootstrapConfigFileApplicationListener",
            ApplicationEvenType::EnvironmentPrepared,
        )
    }
}

impl DiscoveryRegistryApplicationListener {
    pub fn is_support(&self, event: ApplicationEvenType) -> (r: bool)
        ensures
            r == (event == ApplicationEvenType::Started),
    {
        event == ApplicationEvenType::Started
    }

    pub fn registration(&self) -> (r: ListenerRegistration)
        ensures
            r.name@ == ("DiscoveryRegistryApplicationListener")@,
            forall|e: ApplicationEvenType| accepts(r, e) <==> e == ApplicationEvenType::Started,
    {
        single_event_registration("DiscoveryRegistryApplicationListener", ApplicationEvenType::Started)
    }
}

impl DiscoveryDeRegistryApplicationListener {
    pub fn is_support(&self, event: ApplicationEvenType) -> (r: bool)
        ensures
            r == (event == ApplicationEvenType::Stopped),
    {
        event == ApplicationEvenType::Stopped
    }

    pub fn registration(&self) -> (r: ListenerRegistration)
        ensures
            r.name@ == ("DiscoveryDeRegistryApplicationListener")@,
            forall|e: ApplicationEvenType| accepts(r, e) <==> e == ApplicationEvenType::Stopped,
    {
        single_event_registration(
            "DiscoveryDeRegistryApplicationListener",
            ApplicationEvenType::Stopped,
        )
    }

    /// The registration stored when the application started, if any.
    pub fn registration_to_remove<'a>(&self, context: &'a DefaultBootstrapContext) -> (r: Option<
        &'a Registration,
    >)
        requires
            context.wf(),
        ensures
            match r {
                Some(reg) => lookup(context@, BeanKind::Registration) == Some(Bean::Registration(*reg)),
                None => lookup(context@, BeanKind::Registration) is None,
            },
    {
        match context.get(BeanKind::Registration) {
            Some(Bean::Registration(reg)) => Some(reg),
            _ => None,
        }
    }
}

impl LoggingCleanApplicationListener {
    pub fn is_support(&self, event: ApplicationEvenType) -> (r: bool)
        ensures
            r == (event == ApplicationEvenType::Stopped),
    {
        event == ApplicationEvenType::Stopped
    }

    pub fn registration(&self) -> (r: ListenerRegistration)
        ensures
            r.name@ == ("LoggingCleanApplicationListener")@,
            forall|e: ApplicationEvenType| accepts(r, e) <==> e == ApplicationEvenType::Stopped,
    {
        single_event_registration("LoggingCleanApplicationListener", ApplicationEvenType::Stopped)
    }

    /// The directory to clean: the log directory when logging to files.
    pub fn log_dir_to_clean(&self, properties: &BootstrapProperties) -> (r: Option<String>)
        ensures
            properties.logger.enabled ==> r == Some(properties.logger.log_dir),
            !properties.logger.enabled ==> r is None,
    {
        if properties.logger.enabled {
            Some(properties.logger.log_dir.clone())
        } else {
            None
        }
    }
}

} // verus!
