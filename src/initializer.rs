//! Initializers: of the bootstrap registry, before the bootstrap context is
//! used, and of the application context, before it is refreshed.
use vstd::prelude::*;
use crate::beans::{Bean, BeanKind, after_set};
use crate::context::{DefaultBootstrapContext, GenericApplicationContext};
use crate::environment::resolve;
use crate::properties::ServerProperties;

verus! {

/// The identity of an application context.
#[derive(Clone, Debug)]
pub struct ContextId {
    pub id: String,
}

/// Names the application context after `application.name`, or
/// `application` where the environment has no such name.
pub struct ContextIdApplicationContextInitializer {}

/// The context id that an environment gives.
pub open spec fn context_id_of(name: Option<String>) -> Seq<char> {
    match name {
        Some(s) => s@,
        None => ("application")@,
    }
}

impl ContextIdApplicationContextInitializer {
    pub fn initialize(&self, application_context: &mut GenericApplicationContext)
        requires
            old(application_context).wf(),
        ensures
            final(application_context).wf(),
            final(application_context).environment() == old(application_context).environment(),
            final(application_context).bootstrap_context() == old(application_context).bootstrap_context(),
            final(application_context).application_type() == old(application_context).application_type(),
            final(application_context)@.dom() == old(application_context)@.dom().insert(BeanKind::ContextId),
            forall|k: BeanKind| k != BeanKind::ContextId && #[trigger] old(application_context)@.contains_key(k)
                ==> final(application_context)@[k] == old(application_context)@[k],
            final(application_context)@[BeanKind::ContextId] matches Bean::ContextId(c) && c.id@
                == context_id_of(
                resolve::<String>(
                    old(application_context).environment().sources(),
                    ("application.name")@,
                ),
            ),
    {
        let id = match application_context.get_environment().get_property::<String>("application.name") {
            Some(s) => s,
            None => String::from_str("application"),
        };
        let bean = Bean::ContextId(ContextId { id });
        let ghost b = bean;
        application_context.set(bean);
        assert(final(application_context)@ == after_set(old(application_context)@, b));
        assert(final(application_context)@.dom() =~= old(application_context)@.dom().insert(BeanKind::ContextId));
    }
}

/// Registers the discovery backend's settings when one is configured.
pub struct ConsulBootstrapRegistryInitializer {}

/// The discovery backend named by a bootstrap context's settings.
pub open spec fn discovery_server(ctx: DefaultBootstrapContext) -> Option<ServerProperties> {
    match ctx.properties().application.cloud {
        Some(c) => match c.discovery {
            Some(d) => Some(d.server),
            None => None,
        },
        None => None,
    }
}

impl ConsulBootstrapRegistryInitializer {
    pub fn initial(&self, context: &mut DefaultBootstrapContext)
        requires
            old(context).wf(),
        ensures
            final(context).wf(),
            final(context).properties() == old(context).properties(),
            discovery_server(*old(context)) is None ==> final(context)@ == old(context)@,
            discovery_server(*old(context)) matches Some(s) ==> final(context)@ == after_set(
                old(context)@,
                Bean::DiscoveryServer(s),
            ),
    {
        let server = match &context.get_bootstrap_properties().application.cloud {
            Some(cloud) => match &cloud.discovery {
                Some(d) => Some(
                    ServerProperties { address: d.server.address.clone(), token: copy_token(&d.server.token) },
                ),
                None => None,
            },
            None => None,
        };
        match server {
            Some(s) => {
                context.register(Bean::DiscoveryServer(s));
            },
            None => {},
        }
    }
}

fn copy_token(t: &Option<String>) -> (r: Option<String>)
    ensures
        r == *t,
{
    match t {
        Some(s) => Some(s.clone()),
        None => None,
    }
}

} // verus!

verus! {

/// Runs on the application context before it is refreshed; it may add
/// beans, and leaves the environment, the mode and the bootstrap context as
/// they are.
pub trait ApplicationContextInitializer {
    fn initialize(&self, application_context: &mut GenericApplicationContext)
        requires
            old(application_context).wf(),
        ensures
            final(application_context).wf(),
            final(application_context).environment() == old(application_context).environment(),
            final(application_context).bootstrap_context() == old(
                application_context,
            ).bootstrap_context(),
            final(application_context).application_type() == old(
                application_context,
            ).application_type(),
    ;
}

impl ApplicationContextInitializer for ContextIdApplicationContextInitializer {
    fn initialize(&self, application_context: &mut GenericApplicationContext) {
        ContextIdApplicationContextInitializer::initialize(self, application_context)
    }
}

} // verus!
