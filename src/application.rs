//! The application: its name, its mode, its listeners, and the data built
//! at each step of the boot sequence.
use vstd::prelude::*;
use crate::context::{DefaultBootstrapContext, GenericApplicationContext};
use crate::environment::{ApplicationEnvironment, PropertySource, PropertyValue, copy_opt_strings, copy_strings, resolve};
use crate::event::ApplicationEvenType;
use crate::initializer::{
    ConsulBootstrapRegistryInitializer, ContextIdApplicationContextInitializer, context_id_of,
    discovery_server,
};
use crate::beans::{Bean, after_set};
use crate::lifecycle::{Lifecycle, Phase, WebApplicationType};
use crate::listeners::{
    ApplicationStartingEventListener, BootstrapConfigFileApplicationListener,
    DiscoveryDeRegistryApplicationListener, DiscoveryRegistryApplicationListener,
    LoggingApplicationListener, LoggingCleanApplicationListener,
};
use crate::multicaster::{ApplicationEventMultiCaster, ListenerRegistration, accepts};
use crate::properties::BootstrapProperties;

verus! {

/// One configuration entry, as views.
pub open spec fn entry_view(e: (String, PropertyValue)) -> (Seq<char>, PropertyValue) {
    (e.0@, e.1)
}

/// The entries of the built-in defaults: name and port, then the discovery
/// server and health check, then the remote configuration settings, each only
/// where configured.
pub open spec fn default_entries(p: BootstrapProperties) -> Seq<(Seq<char>, PropertyValue)> {
    let port = match p.application.port {
        Some(v) => v,
        None => 0,
    };
    seq![
        (("application.name")@, PropertyValue::Text(p.application.name)),
        (("application.port")@, PropertyValue::Integer(port as i64)),
    ] + match p.application.cloud {
        Some(c) => discovery_entries(c.discovery) + cloud_config_entries(c.config),
        None => Seq::empty(),
    }
}

pub open spec fn token_entry(key: Seq<char>, token: Option<String>) -> Seq<(Seq<char>, PropertyValue)> {
    match token {
        Some(t) => seq![(key, PropertyValue::Text(t))],
        None => Seq::empty(),
    }
}

pub open spec fn discovery_entries(d: Option<crate::properties::DiscoveryProperties>) -> Seq<
    (Seq<char>, PropertyValue),
> {
    match d {
        Some(d) => seq![
            (("application.cloud.discovery.server.address")@, PropertyValue::Text(d.server.address)),
        ] + token_entry(("application.cloud.discovery.server.token")@, d.server.token) + match d.health {
            Some(h) => seq![
                (("application.cloud.discovery.health.check.path")@, PropertyValue::Text(h.check.path)),
                (
                    ("application.cloud.discovery.health.check.interval")@,
                    PropertyValue::Text(h.check.interval),
                ),
            ],
            None => Seq::empty(),
        },
        None => Seq::empty(),
    }
}

pub open spec fn cloud_config_entries(c: Option<crate::properties::CloudConfigProperties>) -> Seq<
    (Seq<char>, PropertyValue),
> {
    match c {
        Some(c) => seq![
            (("application.cloud.config.enabled")@, PropertyValue::Bool(c.enabled)),
            (("application.cloud.config.address")@, PropertyValue::Text(c.address)),
        ] + token_entry(("application.cloud.config.token")@, c.token),
        None => Seq::empty(),
    }
}

fn push_entry(entries: &mut Vec<(String, PropertyValue)>, key: &str, value: PropertyValue)
    ensures
        final(entries)@.map_values(|e: (String, PropertyValue)| entry_view(e)) == old(
            entries,
        )@.map_values(|e: (String, PropertyValue)| entry_view(e)).push((key@, value)),
{
    entries.push((String::from_str(key), value));
    assert(final(entries)@.map_values(|e: (String, PropertyValue)| entry_view(e)) =~= old(
        entries,
    )@.map_values(|e: (String, PropertyValue)| entry_view(e)).push((key@, value)));
}

fn push_token(entries: &mut Vec<(String, PropertyValue)>, key: &str, token: &Option<String>)
    ensures
        final(entries)@.map_values(|e: (String, PropertyValue)| entry_view(e)) == old(
            entries,
        )@.map_values(|e: (String, PropertyValue)| entry_view(e)) + token_entry(key@, *token),
{
    match token {
        Some(t) => {
            push_entry(entries, key, PropertyValue::Text(t.clone()));
        },
        None => {},
    }
    assert(final(entries)@.map_values(|e: (String, PropertyValue)| entry_view(e)) =~= old(
        entries,
    )@.map_values(|e: (String, PropertyValue)| entry_view(e)) + token_entry(key@, *token));
}

/// The built-in defaults, as the source `defaultProperties`.
pub fn default_properties_source(p: &BootstrapProperties) -> (r: PropertySource)
    ensures
        r.name@ == ("defaultProperties")@,
        r.entries@.map_values(|e: (String, PropertyValue)| entry_view(e)) == default_entries(*p),
{
    let mut entries: Vec<(String, PropertyValue)> = Vec::new();
    let ghost v0 = entries@.map_values(|e: (String, PropertyValue)| entry_view(e));
    assert(v0 =~= Seq::<(Seq<char>, PropertyValue)>::empty());
    push_entry(&mut entries, "application.name", PropertyValue::Text(p.get_application_name()));
    push_entry(&mut entries, "application.port", PropertyValue::Integer(p.get_application_port() as i64));
    let ghost base = entries@.map_values(|e: (String, PropertyValue)| entry_view(e));
    assert(base =~= seq![
        (("application.name")@, PropertyValue::Text(p.application.name)),
        (("application.port")@, PropertyValue::Integer((match p.application.port {
            Some(v) => v,
            None => 0,
        }) as i64)),
    ]);
    match &p.application.cloud {
        Some(cloud) => {
            match &cloud.discovery {
                Some(d) => {
                    push_entry(
                        &mut entries,
                        "application.cloud.discovery.server.address",
                        PropertyValue::Text(d.server.address.clone()),
                    );
                    push_token(&mut entries, "application.cloud.discovery.server.token", &d.server.token);
                    match &d.health {
                        Some(h) => {
                            push_entry(
                                &mut entries,
                                "application.cloud.discovery.health.check.path",
                                PropertyValue::Text(h.check.path.clone()),
                            );
                            push_entry(
                                &mut entries,
                                "application.cloud.discovery.health.check.interval",
                                PropertyValue::Text(h.check.interval.clone()),
                            );
                        },
                        None => {},
                    }
                },
                None => {},
            }
            let ghost mid = entries@.map_values(|e: (String, PropertyValue)| entry_view(e));
            assert(mid =~= base + discovery_entries(cloud.discovery));
            match &cloud.config {
                Some(c) => {
                    push_entry(&mut entries, "application.cloud.config.enabled", PropertyValue::Bool(c.enabled));
                    push_entry(
                        &mut entries,
                        "application.cloud.config.address",
                        PropertyValue::Text(c.address.clone()),
                    );
                    push_token(&mut entries, "application.cloud.config.token", &c.token);
                },
                None => {},
            }
            assert(entries@.map_values(|e: (String, PropertyValue)| entry_view(e)) =~= mid
                + cloud_config_entries(cloud.config));
        },
        None => {},
    }
    assert(entries@.map_values(|e: (String, PropertyValue)| entry_view(e)) =~= default_entries(*p));
    PropertySource { name: String::from_str("defaultProperties"), entries }
}

/// The application with its listeners, in the order in which they run.
pub struct RustApplication {
    pub crate_name: String,
    pub application_type: WebApplicationType,
    pub listeners: ApplicationEventMultiCaster,
}

/// The event kinds that the built-in listeners accept, in registration order.
pub open spec fn builtin_listener_events() -> Seq<ApplicationEvenType> {
    seq![
        ApplicationEvenType::Starting,
        ApplicationEvenType::Starting,
        ApplicationEvenType::EnvironmentPrepared,
        ApplicationEvenType::Started,
        ApplicationEvenType::Stopped,
        ApplicationEvenType::Stopped,
    ]
}

/// The names of the built-in listeners, in registration order: logging is set
/// up before any other listener runs.
pub open spec fn builtin_listener_names() -> Seq<Seq<char>> {
    seq![
        ("LoggingApplicationListener")@,
        ("ApplicationStartingEventListener")@,
        ("BootstrapConfigFileApplicationListener")@,
        ("DiscoveryRegistryApplicationListener")@,
        ("DiscoveryDeRegistryApplicationListener")@,
        ("LoggingCleanApplicationListener")@,
    ]
}

impl RustApplication {
    /// An application with the built-in listeners: logging setup, the
    /// starting log, configuration loading, discovery registration,
    /// deregistration, and log cleanup, in that order.
    pub fn new(crate_name: &str, application_type: WebApplicationType) -> (r: RustApplication)
        ensures
            r.crate_name@ == crate_name@,
            r.application_type == application_type,
            r.listeners@.len() == 6,
            forall|i: int, e: ApplicationEvenType|
                0 <= i < 6 ==> (#[trigger] accepts(r.listeners@[i], e) <==> e
                    == builtin_listener_events()[i]),
            r.listeners@.map_values(|l: ListenerRegistration| l.name@) == builtin_listener_names(),
    {
        let mut listeners = ApplicationEventMultiCaster::new();
        listeners.register(LoggingApplicationListener {}.registration());
        listeners.register(ApplicationStartingEventListener {}.registration());
        listeners.register(BootstrapConfigFileApplicationListener {}.registration());
        listeners.register(DiscoveryRegistryApplicationListener {}.registration());
        listeners.register(DiscoveryDeRegistryApplicationListener {}.registration());
        listeners.register(LoggingCleanApplicationListener {}.registration());
        assert(listeners@.map_values(|l: ListenerRegistration| l.name@) =~= builtin_listener_names());
        RustApplication { crate_name: String::from_str(crate_name), application_type, listeners }
    }

    pub fn get_listeners(&self) -> (r: &ApplicationEventMultiCaster)
        ensures
            *r == self.listeners,
    {
        &self.listeners
    }

    /// Appends a listener after the others.
    pub fn add_listener(&mut self, listener: ListenerRegistration)
        ensures
            final(self).listeners@ == old(self).listeners@.push(listener),
            final(self).crate_name == old(self).crate_name,
            final(self).application_type == old(self).application_type,
    {
        self.listeners.register(listener);
    }

    /// A fresh run of the boot sequence in this application's mode.
    pub fn start_run(&self) -> (r: Lifecycle)
        ensures
            r.wf(),
            r.mode() == self.application_type,
            r.phase() == Phase::Created,
    {
        Lifecycle::new(self.application_type)
    }

    /// The bootstrap context over `properties`, named after the crate when
    /// they give no name, with the bootstrap registry initialized.
    pub fn create_bootstrap_context(&self, properties: BootstrapProperties) -> (r: DefaultBootstrapContext)
        ensures
            r.wf(),
            r.properties().application.name@ == (if properties.application.name@.len() == 0 {
                self.crate_name@
            } else {
                properties.application.name@
            }),
            r.properties().application.port == properties.application.port,
            r.properties().application.config == properties.application.config,
            r.properties().application.cloud == properties.application.cloud,
            r.properties().logger == properties.logger,
            discovery_server(r) is None ==> r@ == Map::<crate::beans::BeanKind, Bean>::empty(),
            discovery_server(r) matches Some(s) ==> r@ == after_set(
                Map::<crate::beans::BeanKind, Bean>::empty(),
                Bean::DiscoveryServer(s),
            ),
    {
        let mut properties = properties;
        if properties.application.name.as_str().unicode_len() == 0 {
            properties.application.name = self.crate_name.clone();
        }
        let mut context = DefaultBootstrapContext::new(properties);
        let initializer = ConsulBootstrapRegistryInitializer {};
        initializer.initial(&mut context);
        context
    }

    /// An environment with the active profiles and search settings of
    /// `properties`, and no sources.
    pub fn create_environment(&self, properties: &BootstrapProperties) -> (r: ApplicationEnvironment)
        ensures
            r.spec_active_profiles() == properties.application.config.activate.profiles@,
            r.spec_config_locations() == (match properties.application.config.locations {
                Some(l) => Some(l@),
                None => None,
            }),
            r.spec_file_names() == (match properties.application.config.file_names {
                Some(l) => Some(l@),
                None => None,
            }),
            r.sources() == Seq::<PropertySource>::empty(),
    {
        let profiles = copy_strings(&properties.application.config.activate.profiles);
        let locations = copy_opt_strings(&properties.application.config.locations);
        let file_names = copy_opt_strings(&properties.application.config.file_names);
        ApplicationEnvironment::new(profiles, locations, file_names)
    }

    /// Appends the built-in defaults as the source `defaultProperties`,
    /// after the sources already there.
    pub fn configure_environment(&self, environment: &mut ApplicationEnvironment, properties: &BootstrapProperties)
        ensures
            final(environment).sources().len() == old(environment).sources().len() + 1,
            final(environment).sources() == old(environment).sources().push(
                final(environment).sources().last(),
            ),
            final(environment).sources().last().name@ == ("defaultProperties")@,
            final(environment).sources().last().entries@.map_values(
                |e: (String, PropertyValue)| entry_view(e),
            ) == default_entries(*properties),
            final(environment).spec_active_profiles() == old(environment).spec_active_profiles(),
            final(environment).spec_config_locations() == old(environment).spec_config_locations(),
            final(environment).spec_file_names() == old(environment).spec_file_names(),
    {
        environment.add_property_source(default_properties_source(properties));
    }

    /// The application context of this application's mode over
    /// `environment`.
    pub fn create_application_context(&self, environment: ApplicationEnvironment) -> (r:
        GenericApplicationContext)
        ensures
            r.wf(),
            r.application_type() == self.application_type,
            r.environment() == environment,
            r@ == Map::<crate::beans::BeanKind, Bean>::empty(),
            r.bootstrap_context() is None,
    {
        GenericApplicationContext::new(self.application_type, environment)
    }

    /// Hands the bootstrap context to the application context and runs the
    /// context initializers.
    pub fn prepare_context(
        &self,
        application_context: &mut GenericApplicationContext,
        bootstrap_context: DefaultBootstrapContext,
    )
        requires
            old(application_context).wf(),
            bootstrap_context.wf(),
        ensures
            final(application_context).wf(),
            final(application_context).bootstrap_context() == Some(bootstrap_context),
            final(application_context).environment() == old(application_context).environment(),
            final(application_context)@.dom() == old(application_context)@.dom().insert(
                crate::beans::BeanKind::ContextId,
            ),
            final(application_context)@[crate::beans::BeanKind::ContextId] matches Bean::ContextId(c)
                && c.id@ == context_id_of(
                resolve::<String>(
                    old(application_context).environment().sources(),
                    ("application.name")@,
                ),
            ),
    {
        application_context.set_bootstrap_context(bootstrap_context);
        let initializer = ContextIdApplicationContextInitializer {};
        initializer.initialize(application_context);
    }
}

/// Why a refresh failed.
#[derive(Clone, Copy, Debug, PartialEq, Eq, Structural)]
pub enum RefreshError {
    /// Server mode, and the environment resolves no `application.port`.
    MissingPort,
}

/// The web server to start: the port it listens on.
#[derive(Clone, Copy, Debug, PartialEq, Eq, Structural)]
pub struct AxumServer {
    pub port: u16,
}

impl AxumServer {
    pub fn get_port(&self) -> (r: u16)
        ensures
            r == self.port,
    {
        self.port
    }
}

/// Refreshes `application_context`: nothing to do without a server; in
/// server mode, the server on the port that the environment resolves.
pub fn refresh(application_context: &GenericApplicationContext) -> (r: Result<Option<AxumServer>, RefreshError>)
    ensures
        application_context.application_type() == WebApplicationType::NONE ==> r == Ok::<
            Option<AxumServer>,
            RefreshError,
        >(None),
        application_context.application_type() == WebApplicationType::WEB ==> match resolve::<u16>(
            application_context.environment().sources(),
            ("application.port")@,
        ) {
            Some(port) => r == Ok::<Option<AxumServer>, RefreshError>(Some(AxumServer { port })),
            None => r == Err::<Option<AxumServer>, RefreshError>(RefreshError::MissingPort),
        },
{
    match application_context.get_application_type() {
        WebApplicationType::NONE => Ok(None),
        WebApplicationType::WEB => match application_context.get_environment().get_property::<u16>(
            "application.port",
        ) {
            Some(port) => Ok(Some(AxumServer { port })),
            None => Err(RefreshError::MissingPort),
        },
    }
}

} // verus!
