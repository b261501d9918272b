//! The boot sequence as a state machine. The library decides what happens
//! next; the caller performs each action and reports how it ended.
use vstd::prelude::*;
use crate::event::ApplicationEvenType;

verus! {

/// Whether the application runs a network server.
#[derive(Clone, Copy, Debug, PartialEq, Eq, Structural)]
pub enum WebApplicationType {
    NONE,
    WEB,
}

/// How long in-flight requests may run once shutdown has begun, in seconds.
pub const SHUTDOWN_GRACE_SECS: u64 = 10;

/// The phases of one run, in order.
#[derive(Clone, Copy, Debug, PartialEq, Eq, Structural)]
pub enum Phase {
    Created,
    BootstrapContextBuilt,
    StartingEmitted,
    EnvironmentBuilt,
    EnvironmentPreparedEmitted,
    ApplicationContextBuilt,
    InitializersApplied,
    ContextPreparedEmitted,
    ContextLoadedEmitted,
    Refreshed,
    RefreshFailed,
    StartedEmitted,
    ShutdownObserved,
    Stopped,
    Failed,
    BootstrapFailed,
    EnvironmentFailed,
    FailedBeforeContext,
}

/// What the caller is to do next.
#[derive(Clone, Copy, Debug, PartialEq, Eq, Structural)]
pub enum Action {
    /// Read the bootstrap settings and build the bootstrap context.
    LoadBootstrap,
    /// Broadcast an event to the listeners.
    Emit(ApplicationEvenType),
    BuildEnvironment,
    BuildApplicationContext,
    ApplyInitializers,
    /// Refresh the context; in server mode this starts the listener.
    Refresh,
    /// Block until the shutdown flag is seen set.
    WaitForShutdown,
    /// The run is over.
    Finished,
}

/// How the last action ended.
#[derive(Clone, Copy, Debug, PartialEq, Eq, Structural)]
pub enum StepOutcome {
    Succeeded,
    Errored,
    /// The waiter woke; `stopped` is the flag it read.
    Woke { stopped: bool },
}

pub open spec fn is_terminal(p: Phase) -> bool {
    p == Phase::Stopped || p == Phase::Failed || p == Phase::BootstrapFailed || p
        == Phase::FailedBeforeContext
}

/// The action of each phase.
pub open spec fn phase_action(p: Phase, mode: WebApplicationType) -> Action {
    match p {
        Phase::Created => Action::LoadBootstrap,
        Phase::BootstrapContextBuilt => Action::Emit(ApplicationEvenType::Starting),
        Phase::StartingEmitted => Action::BuildEnvironment,
        Phase::EnvironmentBuilt => Action::Emit(ApplicationEvenType::EnvironmentPrepared),
        Phase::EnvironmentPreparedEmitted => Action::BuildApplicationContext,
        Phase::ApplicationContextBuilt => Action::ApplyInitializers,
        Phase::InitializersApplied => Action::Emit(ApplicationEvenType::ContextInitialized),
        Phase::ContextPreparedEmitted => Action::Emit(ApplicationEvenType::Prepared),
        Phase::ContextLoadedEmitted => Action::Refresh,
        Phase::Refreshed => Action::Emit(ApplicationEvenType::Started),
        Phase::RefreshFailed => Action::Emit(ApplicationEvenType::Failed),
        Phase::EnvironmentFailed => Action::Emit(ApplicationEvenType::Failed),
        Phase::StartedEmitted => match mode {
            WebApplicationType::WEB => Action::WaitForShutdown,
            WebApplicationType::NONE => Action::Emit(ApplicationEvenType::Stopped),
        },
        Phase::ShutdownObserved => Action::Emit(ApplicationEvenType::Stopped),
        _ => Action::Finished,
    }
}

/// The phase after `p` once its action ended with `o`.
pub open spec fn next_phase(p: Phase, mode: WebApplicationType, o: StepOutcome) -> Phase {
    match p {
        Phase::Created => if o == StepOutcome::Errored {
            Phase::BootstrapFailed
        } else {
            Phase::BootstrapContextBuilt
        },
        Phase::BootstrapContextBuilt => Phase::StartingEmitted,
        Phase::StartingEmitted => if o == StepOutcome::Errored {
            Phase::EnvironmentFailed
        } else {
            Phase::EnvironmentBuilt
        },
        Phase::EnvironmentBuilt => Phase::EnvironmentPreparedEmitted,
        Phase::EnvironmentPreparedEmitted => Phase::ApplicationContextBuilt,
        Phase::ApplicationContextBuilt => Phase::InitializersApplied,
        Phase::InitializersApplied => Phase::ContextPreparedEmitted,
        Phase::ContextPreparedEmitted => Phase::ContextLoadedEmitted,
        Phase::ContextLoadedEmitted => if o == StepOutcome::Errored {
            Phase::RefreshFailed
        } else {
            Phase::Refreshed
        },
        Phase::Refreshed => Phase::StartedEmitted,
        Phase::RefreshFailed => Phase::Failed,
        Phase::EnvironmentFailed => Phase::FailedBeforeContext,
        Phase::StartedEmitted => match mode {
            WebApplicationType::WEB => if o == (StepOutcome::Woke { stopped: true }) {
                Phase::ShutdownObserved
            } else {
                Phase::StartedEmitted
            },
            WebApplicationType::NONE => Phase::Stopped,
        },
        Phase::ShutdownObserved => Phase::Stopped,
        _ => p,
    }
}

/// The events broadcast before reaching phase `p`, in order.
pub open spec fn events_until(p: Phase) -> Seq<ApplicationEvenType> {
    let s = ApplicationEvenType::Starting;
    let ep = ApplicationEvenType::EnvironmentPrepared;
    let ci = ApplicationEvenType::ContextInitialized;
    let pr = ApplicationEvenType::Prepared;
    match p {
        Phase::Created | Phase::BootstrapContextBuilt | Phase::BootstrapFailed => seq![],
        Phase::StartingEmitted | Phase::EnvironmentBuilt | Phase::EnvironmentFailed => seq![s],
        Phase::EnvironmentPreparedEmitted | Phase::ApplicationContextBuilt
        | Phase::InitializersApplied => seq![s, ep],
        Phase::ContextPreparedEmitted => seq![s, ep, ci],
        Phase::ContextLoadedEmitted | Phase::Refreshed | Phase::RefreshFailed => seq![s, ep, ci, pr],
        Phase::StartedEmitted | Phase::ShutdownObserved => seq![
            s,
            ep,
            ci,
            pr,
            ApplicationEvenType::Started,
        ],
        Phase::Stopped => seq![s, ep, ci, pr, ApplicationEvenType::Started, ApplicationEvenType::Stopped],
        Phase::Failed => seq![s, ep, ci, pr, ApplicationEvenType::Failed],
        Phase::FailedBeforeContext => seq![s, ApplicationEvenType::Failed],
    }
}

/// One run of the boot sequence.
pub struct Lifecycle {
    mode: WebApplicationType,
    phase: Phase,
    events: Vec<ApplicationEvenType>,
}

impl Lifecycle {
    pub closed spec fn mode(&self) -> WebApplicationType {
        self.mode
    }

    pub closed spec fn phase(&self) -> Phase {
        self.phase
    }

    /// The events broadcast so far, in order.
    pub closed spec fn events(&self) -> Seq<ApplicationEvenType> {
        self.events@
    }

    pub closed spec fn wf(&self) -> bool {
        self.events@ == events_until(self.phase)
    }

    /// A run that has not begun.
    pub fn new(mode: WebApplicationType) -> (r: Lifecycle)
        ensures
            r.wf(),
            r.mode() == mode,
            r.phase() == Phase::Created,
            r.events() == Seq::<ApplicationEvenType>::empty(),
    {
        let r = Lifecycle { mode, phase: Phase::Created, events: Vec::new() };
        assert(r.events@ =~= events_until(Phase::Created));
        r
    }

    pub fn get_mode(&self) -> (r: WebApplicationType)
        ensures
            r == self.mode(),
    {
        self.mode
    }

    pub fn get_phase(&self) -> (r: Phase)
        ensures
            r == self.phase(),
    {
        self.phase
    }

    pub fn get_events(&self) -> (r: &Vec<ApplicationEvenType>)
        ensures
            r@ == self.events(),
    {
        &self.events
    }

    /// Whether the run is over.
    pub fn is_finished(&self) -> (r: bool)
        ensures
            r == is_terminal(self.phase()),
    {
        match self.phase {
            Phase::Stopped | Phase::Failed | Phase::BootstrapFailed | Phase::FailedBeforeContext => true,
            _ => false,
        }
    }

    /// What the caller is to do next.
    pub fn next_action(&self) -> (r: Action)
        ensures
            r == phase_action(self.phase(), self.mode()),
    {
        match self.phase {
            Phase::Created => Action::LoadBootstrap,
            Phase::BootstrapContextBuilt => Action::Emit(ApplicationEvenType::Starting),
            Phase::StartingEmitted => Action::BuildEnvironment,
            Phase::EnvironmentBuilt => Action::Emit(ApplicationEvenType::EnvironmentPrepared),
            Phase::EnvironmentPreparedEmitted => Action::BuildApplicationContext,
            Phase::ApplicationContextBuilt => Action::ApplyInitializers,
            Phase::InitializersApplied => Action::Emit(ApplicationEvenType::ContextInitialized),
            Phase::ContextPreparedEmitted => Action::Emit(ApplicationEvenType::Prepared),
            Phase::ContextLoadedEmitted => Action::Refresh,
            Phase::Refreshed => Action::Emit(ApplicationEvenType::Started),
            Phase::RefreshFailed => Action::Emit(ApplicationEvenType::Failed),
            Phase::EnvironmentFailed => Action::Emit(ApplicationEvenType::Failed),
            Phase::StartedEmitted => match self.mode {
                WebApplicationType::WEB => Action::WaitForShutdown,
                WebApplicationType::NONE => Action::Emit(ApplicationEvenType::Stopped),
            },
            Phase::ShutdownObserved => Action::Emit(ApplicationEvenType::Stopped),
            _ => Action::Finished,
        }
    }

    /// Moves on once the current action ended with `outcome`. A broadcast
    /// cannot fail; a wake-up that did not see the flag set keeps waiting.
    pub fn advance(&mut self, outcome: StepOutcome)
        requires
            old(self).wf(),
            !is_terminal(old(self).phase()),
        ensures
            final(self).wf(),
            final(self).mode() == old(self).mode(),
            final(self).phase() == next_phase(old(self).phase(), old(self).mode(), outcome),
            final(self).events() == match phase_action(old(self).phase(), old(self).mode()) {
                Action::Emit(e) => old(self).events().push(e),
                _ => old(self).events(),
            },
    {
        let action = self.next_action();
        let next = match self.phase {
            Phase::Created => if outcome == StepOutcome::Errored {
                Phase::BootstrapFailed
            } else {
                Phase::BootstrapContextBuilt
            },
            Phase::BootstrapContextBuilt => Phase::StartingEmitted,
            Phase::StartingEmitted => if outcome == StepOutcome::Errored {
                Phase::EnvironmentFailed
            } else {
                Phase::EnvironmentBuilt
            },
            Phase::EnvironmentBuilt => Phase::EnvironmentPreparedEmitted,
            Phase::EnvironmentPreparedEmitted => Phase::ApplicationContextBuilt,
            Phase::ApplicationContextBuilt => Phase::InitializersApplied,
            Phase::InitializersApplied => Phase::ContextPreparedEmitted,
            Phase::ContextPreparedEmitted => Phase::ContextLoadedEmitted,
            Phase::ContextLoadedEmitted => if outcome == StepOutcome::Errored {
                Phase::RefreshFailed
            } else {
                Phase::Refreshed
            },
            Phase::Refreshed => Phase::StartedEmitted,
            Phase::RefreshFailed => Phase::Failed,
            Phase::EnvironmentFailed => Phase::FailedBeforeContext,
            Phase::StartedEmitted => match self.mode {
                WebApplicationType::WEB => if outcome == (StepOutcome::Woke { stopped: true }) {
                    Phase::ShutdownObserved
                } else {
                    Phase::StartedEmitted
                },
                WebApplicationType::NONE => Phase::Stopped,
            },
            Phase::ShutdownObserved => Phase::Stopped,
            _ => self.phase,
        };
        match action {
            Action::Emit(e) => {
                self.events.push(e);
            },
            _ => {},
        }
        self.phase = next;
        assert(self.events@ =~= events_until(next));
    }
}

/// A successful run ends with exactly the events Starting,
/// EnvironmentPrepared, ContextInitialized, Prepared, Started, Stopped; a run
/// whose refresh failed ends with Starting, EnvironmentPrepared,
/// ContextInitialized, Prepared, Failed, with neither Started nor Stopped; a
/// run whose environment could not be built ends with Starting, Failed; a run
/// whose bootstrap settings could not be read broadcasts nothing. So every
/// finished run that broadcast anything ends with Stopped or Failed.
pub proof fn lemma_terminal_event_sequences(lc: Lifecycle)
    requires
        lc.wf(),
    ensures
        lc.phase() == Phase::Stopped ==> lc.events() == seq![
            ApplicationEvenType::Starting,
            ApplicationEvenType::EnvironmentPrepared,
            ApplicationEvenType::ContextInitialized,
            ApplicationEvenType::Prepared,
            ApplicationEvenType::Started,
            ApplicationEvenType::Stopped,
        ],
        lc.phase() == Phase::Failed ==> lc.events() == seq![
            ApplicationEvenType::Starting,
            ApplicationEvenType::EnvironmentPrepared,
            ApplicationEvenType::ContextInitialized,
            ApplicationEvenType::Prepared,
            ApplicationEvenType::Failed,
        ],
        lc.phase() == Phase::FailedBeforeContext ==> lc.events() == seq![
            ApplicationEvenType::Starting,
            ApplicationEvenType::Failed,
        ],
        lc.phase() == Phase::BootstrapFailed ==> lc.events() == Seq::<ApplicationEvenType>::empty(),
        is_terminal(lc.phase()) && lc.events().len() > 0 ==> (lc.events().last()
            == ApplicationEvenType::Stopped || lc.events().last() == ApplicationEvenType::Failed),
        is_terminal(lc.phase()) && lc.phase() != Phase::BootstrapFailed ==> lc.events().len() > 0,
{
}

/// The events of every reachable state are a prefix of one of the complete
/// sequences, so no event is broadcast twice and Stopped and Failed exclude
/// each other.
pub proof fn lemma_events_never_repeat(lc: Lifecycle)
    requires
        lc.wf(),
    ensures
        forall|i: int, j: int|
            0 <= i < j < lc.events().len() ==> lc.events()[i] != lc.events()[j],
        !(lc.events().contains(ApplicationEvenType::Stopped) && lc.events().contains(
            ApplicationEvenType::Failed,
        )),
{
    let s = lc.events();
    assert forall|i: int, j: int| 0 <= i < j < s.len() implies s[i] != s[j] by {
    }
    if s.contains(ApplicationEvenType::Stopped) && s.contains(ApplicationEvenType::Failed) {
        let a = choose|a: int| 0 <= a < s.len() && s[a] == ApplicationEvenType::Stopped;
        let b = choose|b: int| 0 <= b < s.len() && s[b] == ApplicationEvenType::Failed;
        assert(false);
    }
}

/// Waiting on the shutdown handle: a wake-up that does not see the flag set
/// changes nothing, and a wake-up that sees it leads to exactly one Stopped
/// broadcast, after which the run is over.
pub proof fn lemma_shutdown_wait(p: Phase, o: StepOutcome)
    requires
        p == Phase::StartedEmitted,
    ensures
        o != (StepOutcome::Woke { stopped: true }) ==> next_phase(p, WebApplicationType::WEB, o) == p,
        o != (StepOutcome::Woke { stopped: true }) ==> phase_action(p, WebApplicationType::WEB)
            == Action::WaitForShutdown,
        o == (StepOutcome::Woke { stopped: true }) ==> next_phase(p, WebApplicationType::WEB, o)
            == Phase::ShutdownObserved,
        phase_action(Phase::ShutdownObserved, WebApplicationType::WEB) == Action::Emit(
            ApplicationEvenType::Stopped,
        ),
        forall|o2: StepOutcome| #[trigger]
            next_phase(Phase::ShutdownObserved, WebApplicationType::WEB, o2) == Phase::Stopped,
        is_terminal(Phase::Stopped),
        events_until(Phase::Stopped).filter(|e: ApplicationEvenType| e == ApplicationEvenType::Stopped).len() == 1,
{
    let st = events_until(Phase::Stopped);
    reveal_with_fuel(Seq::filter, 7);
    assert(st.filter(|e: ApplicationEvenType| e == ApplicationEvenType::Stopped) =~= seq![
        ApplicationEvenType::Stopped,
    ]);
}

} // verus!
