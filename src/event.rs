//! Lifecycle events: a closed set of kinds, and one value type per kind.
use vstd::prelude::*;
use crate::properties::BootstrapProperties;

verus! {

/// The closed set of lifecycle event kinds.
#[derive(Clone, Copy, Debug, PartialEq, Eq, Structural)]
pub enum ApplicationEvenType {
    Starting,
    EnvironmentPrepared,
    ContextInitialized,
    Prepared,
    Started,
    Failed,
    Stopped,
}

/// An event broadcast at one lifecycle phase.
pub trait ApplicationEvent {
    spec fn event_type(&self) -> ApplicationEvenType;

    fn get_event_type(&self) -> (r: ApplicationEvenType)
        ensures
            r == self.event_type(),
    ;
}

/// Emitted first; carries the bootstrap settings.
pub struct ApplicationStartingEvent {
    pub bootstrap_properties: BootstrapProperties,
}

pub struct ApplicationEnvironmentPreparedEvent {}

pub struct ApplicationContextInitializedEvent {}

pub struct ApplicationPreparedEvent {}

pub struct ApplicationStartedEvent {}

pub struct ApplicationFailedEvent {}

pub struct ApplicationStoppedEvent {}

impl ApplicationEvent for ApplicationStartingEvent {
    open spec fn event_type(&self) -> ApplicationEvenType {
        ApplicationEvenType::Starting
    }

    fn get_event_type(&self) -> (r: ApplicationEvenType) {
        ApplicationEvenType::Starting
    }
}

impl ApplicationEvent for ApplicationEnvironmentPreparedEvent {
    open spec fn event_type(&self) -> ApplicationEvenType {
        ApplicationEvenType::EnvironmentPrepared
    }

    fn get_event_type(&self) -> (r: ApplicationEvenType) {
        ApplicationEvenType::EnvironmentPrepared
    }
}

impl ApplicationEvent for ApplicationContextInitializedEvent {
    open spec fn event_type(&self) -> ApplicationEvenType {
        ApplicationEvenType::ContextInitialized
    }

    fn get_event_type(&self) -> (r: ApplicationEvenType) {
        ApplicationEvenType::ContextInitialized
    }
}

impl ApplicationEvent for ApplicationPreparedEvent {
    open spec fn event_type(&self) -> ApplicationEvenType {
        ApplicationEvenType::Prepared
    }

    fn get_event_type(&self) -> (r: ApplicationEvenType) {
        ApplicationEvenType::Prepared
    }
}

impl ApplicationEvent for ApplicationStartedEvent {
    open spec fn event_type(&self) -> ApplicationEvenType {
        ApplicationEvenType::Started
    }

    fn get_event_type(&self) -> (r: ApplicationEvenType) {
        ApplicationEvenType::Started
    }
}

impl ApplicationEvent for ApplicationFailedEvent {
    open spec fn event_type(&self) -> ApplicationEvenType {
        ApplicationEvenType::Failed
    }

    fn get_event_type(&self) -> (r: ApplicationEvenType) {
        ApplicationEvenType::Failed
    }
}

impl ApplicationEvent for ApplicationStoppedEvent {
    open spec fn event_type(&self) -> ApplicationEvenType {
        ApplicationEvenType::Stopped
    }

    fn get_event_type(&self) -> (r: ApplicationEvenType) {
        ApplicationEvenType::Stopped
    }
}

/// The steps at which the orchestrator notifies its run listeners.
#[derive(Clone, Copy, Debug, PartialEq, Eq, Structural)]
pub enum RunStep {
    Starting,
    EnvironmentPrepared,
    ContextPrepared,
    ContextLoaded,
    Started,
    Failed,
    Stopped,
}

/// The event kind that a run step is published as.
pub open spec fn step_event(step: RunStep) -> ApplicationEvenType {
    match step {
        RunStep::Starting => ApplicationEvenType::Starting,
        RunStep::EnvironmentPrepared => ApplicationEvenType::EnvironmentPrepared,
        RunStep::ContextPrepared => ApplicationEvenType::ContextInitialized,
        RunStep::ContextLoaded => ApplicationEvenType::Prepared,
        RunStep::Started => ApplicationEvenType::Started,
        RunStep::Failed => ApplicationEvenType::Failed,
        RunStep::Stopped => ApplicationEvenType::Stopped,
    }
}

/// Turns each run step into the event that is broadcast for it.
pub struct EventPublishingRunListener {}

impl EventPublishingRunListener {
    pub fn event_for(&self, step: RunStep) -> (r: ApplicationEvenType)
        ensures
            r == step_event(step),
    {
        match step {
            RunStep::Starting => ApplicationEvenType::Starting,
            RunStep::EnvironmentPrepared => ApplicationEvenType::EnvironmentPrepared,
            RunStep::ContextPrepared => ApplicationEvenType::ContextInitialized,
            RunStep::ContextLoaded => ApplicationEvenType::Prepared,
            RunStep::Started => ApplicationEvenType::Started,
            RunStep::Failed => ApplicationEvenType::Failed,
            RunStep::Stopped => ApplicationEvenType::Stopped,
        }
    }
}

} // verus!
