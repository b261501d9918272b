//! The bootstrap context (bootstrap settings plus a registry) and the
//! application context (environment plus a registry) that it is copied into.
use vstd::prelude::*;
use crate::beans::{Bean, BeanKind, DefaultListableBeanFactory, lookup, after_set, after_register_if_absent};
use crate::environment::{ApplicationEnvironment, resolve};
use crate::lifecycle::WebApplicationType;
use crate::properties::BootstrapProperties;

verus! {

/// The short-lived context that exists before the application context.
pub struct DefaultBootstrapContext {
    properties: BootstrapProperties,
    instances: DefaultListableBeanFactory,
}

impl DefaultBootstrapContext {
    pub closed spec fn properties(&self) -> BootstrapProperties {
        self.properties
    }

    /// The registered beans, by kind.
    pub closed spec fn view(&self) -> Map<BeanKind, Bean> {
        self.instances@
    }

    pub closed spec fn wf(&self) -> bool {
        self.instances.wf()
    }

    /// A context over `bootstrap_properties` with no beans.
    pub fn new(bootstrap_properties: BootstrapProperties) -> (r: DefaultBootstrapContext)
        ensures
            r.wf(),
            r.properties() == bootstrap_properties,
            r@ == Map::<BeanKind, Bean>::empty(),
    {
        DefaultBootstrapContext {
            properties: bootstrap_properties,
            instances: DefaultListableBeanFactory::new(),
        }
    }

    pub fn get_bootstrap_properties(&self) -> (r: &BootstrapProperties)
        ensures
            *r == self.properties(),
    {
        &self.properties
    }

    /// Stores `bean`, replacing one of the same kind; true when it is the
    /// first of its kind.
    pub fn register(&mut self, bean: Bean) -> (r: bool)
        requires
            old(self).wf(),
        ensures
            final(self).wf(),
            final(self).properties() == old(self).properties(),
            final(self)@ == after_set(old(self)@, bean),
            r == !old(self)@.contains_key(bean.kind()),
    {
        self.instances.set(bean)
    }

    /// The same as `register`.
    pub fn set(&mut self, bean: Bean) -> (r: bool)
        requires
            old(self).wf(),
        ensures
            final(self).wf(),
            final(self).properties() == old(self).properties(),
            final(self)@ == after_set(old(self)@, bean),
            r == !old(self)@.contains_key(bean.kind()),
    {
        self.instances.set(bean)
    }

    /// Takes out the bean of `kind`, if any.
    pub fn remove(&mut self, kind: BeanKind) -> (r: Option<Bean>)
        requires
            old(self).wf(),
        ensures
            final(self).wf(),
            final(self).properties() == old(self).properties(),
            final(self)@ == old(self)@.remove(kind),
            r == lookup(old(self)@, kind),
    {
        self.instances.remove(kind)
    }

    pub fn is_registered(&self, kind: BeanKind) -> (r: bool)
        requires
            self.wf(),
        ensures
            r == self@.contains_key(kind),
    {
        self.instances.is_registered(kind)
    }

    /// Stores `bean` unless one of its kind is already there.
    pub fn register_if_absent(&mut self, bean: Bean)
        requires
            old(self).wf(),
        ensures
            final(self).wf(),
            final(self).properties() == old(self).properties(),
            final(self)@ == after_register_if_absent(old(self)@, bean),
    {
        self.instances.register_if_absent(bean)
    }

    /// The bean of `kind`, or `None`.
    pub fn get(&self, kind: BeanKind) -> (r: Option<&Bean>)
        requires
            self.wf(),
        ensures
            r matches Some(b) ==> b.kind() == kind,
            match r {
                Some(b) => lookup(self@, kind) == Some(*b),
                None => lookup(self@, kind) == None::<Bean>,
            },
    {
        self.instances.try_get(kind)
    }

    /// The same as `get`.
    pub fn try_get(&self, kind: BeanKind) -> (r: Option<&Bean>)
        requires
            self.wf(),
        ensures
            r matches Some(b) ==> b.kind() == kind,
            match r {
                Some(b) => lookup(self@, kind) == Some(*b),
                None => lookup(self@, kind) == None::<Bean>,
            },
    {
        self.instances.try_get(kind)
    }
}

/// The long-lived context: the environment, a registry, and the bootstrap
/// context it took over.
pub struct GenericApplicationContext {
    application_type: WebApplicationType,
    environment: ApplicationEnvironment,
    bean_factory: DefaultListableBeanFactory,
    bootstrap_context: Option<DefaultBootstrapContext>,
}

impl GenericApplicationContext {
    pub closed spec fn application_type(&self) -> WebApplicationType {
        self.application_type
    }

    pub closed spec fn environment(&self) -> ApplicationEnvironment {
        self.environment
    }

    /// The registered beans, by kind.
    pub closed spec fn view(&self) -> Map<BeanKind, Bean> {
        self.bean_factory@
    }

    pub closed spec fn bootstrap_context(&self) -> Option<DefaultBootstrapContext> {
        self.bootstrap_context
    }

    pub closed spec fn wf(&self) -> bool {
        &&& self.bean_factory.wf()
        &&& self.bootstrap_context matches Some(b) ==> b.wf()
    }

    /// A context of the given mode over `environment`, with no beans.
    pub fn new(application_type: WebApplicationType, environment: ApplicationEnvironment) -> (r:
        GenericApplicationContext)
        ensures
            r.wf(),
            r.application_type() == application_type,
            r.environment() == environment,
            r@ == Map::<BeanKind, Bean>::empty(),
            r.bootstrap_context() is None,
    {
        GenericApplicationContext {
            application_type,
            environment,
            bean_factory: DefaultListableBeanFactory::new(),
            bootstrap_context: None,
        }
    }

    pub fn get_application_type(&self) -> (r: WebApplicationType)
        ensures
            r == self.application_type(),
    {
        self.application_type
    }

    pub fn get_environment(&self) -> (r: &ApplicationEnvironment)
        ensures
            *r == self.environment(),
    {
        &self.environment
    }

    pub fn get_environment_mut(&mut self) -> (r: &mut ApplicationEnvironment)
        ensures
            *r == old(self).environment(),
            final(self).environment() == *final(r),
            final(self).application_type() == old(self).application_type(),
            final(self)@ == old(self)@,
            final(self).bootstrap_context() == old(self).bootstrap_context(),
            final(self).wf() == old(self).wf(),
    {
        &mut self.environment
    }

    pub fn set_environment(&mut self, environment: ApplicationEnvironment)
        ensures
            final(self).environment() == environment,
            final(self).application_type() == old(self).application_type(),
            final(self)@ == old(self)@,
            final(self).bootstrap_context() == old(self).bootstrap_context(),
            final(self).wf() == old(self).wf(),
    {
        self.environment = environment;
    }

    pub fn get_bean_factory(&self) -> (r: &DefaultListableBeanFactory)
        ensures
            r@ == self@,
            self.wf() ==> r.wf(),
    {
        &self.bean_factory
    }

    /// Stores `bean`, replacing one of the same kind; true when it is the
    /// first of its kind.
    pub fn set(&mut self, bean: Bean) -> (r: bool)
        requires
            old(self).wf(),
        ensures
            final(self).wf(),
            final(self)@ == after_set(old(self)@, bean),
            r == !old(self)@.contains_key(bean.kind()),
            final(self).environment() == old(self).environment(),
            final(self).application_type() == old(self).application_type(),
            final(self).bootstrap_context() == old(self).bootstrap_context(),
    {
        self.bean_factory.set(bean)
    }

    /// Takes over the bootstrap context.
    pub fn set_bootstrap_context(&mut self, bootstrap_context: DefaultBootstrapContext)
        requires
            old(self).wf(),
            bootstrap_context.wf(),
        ensures
            final(self).wf(),
            final(self).bootstrap_context() == Some(bootstrap_context),
            final(self)@ == old(self)@,
            final(self).environment() == old(self).environment(),
            final(self).application_type() == old(self).application_type(),
    {
        self.bootstrap_context = Some(bootstrap_context);
    }

    pub fn get_bootstrap_context(&self) -> (r: Option<&DefaultBootstrapContext>)
        requires
            self.wf(),
        ensures
            match r {
                Some(b) => self.bootstrap_context() == Some(*b) && b.wf(),
                None => self.bootstrap_context() is None,
            },
    {
        match &self.bootstrap_context {
            Some(b) => Some(b),
            None => None,
        }
    }

    pub fn get_bootstrap_context_mut(&mut self) -> (r: Option<&mut DefaultBootstrapContext>)
        requires
            old(self).wf(),
        ensures
            match r {
                Some(b) => old(self).bootstrap_context() == Some(*b) && final(self).bootstrap_context()
                    == Some(*final(b)) && (final(b).wf() ==> final(self).wf()),
                None => old(self).bootstrap_context() is None && *final(self) == *old(self),
            },
            final(self)@ == old(self)@,
            final(self).environment() == old(self).environment(),
            final(self).application_type() == old(self).application_type(),
    {
        match &mut self.bootstrap_context {
            Some(b) => Some(b),
            None => None,
        }
    }

    /// The name of the application: `application.name` from the
    /// environment, or empty.
    pub fn get_application_name(&self) -> (r: String)
        ensures
            r@ == match resolve::<String>(self.environment().sources(), ("application.name")@) {
                Some(s) => s@,
                None => Seq::<char>::empty(),
            },
    {
        match self.environment.get_property::<String>("application.name") {
            Some(s) => s,
            None => String::new(),
        }
    }
}

/// Registering twice if absent keeps the first value.
pub proof fn lemma_register_if_absent_keeps_first(m: Map<BeanKind, Bean>, v1: Bean, v2: Bean)
    requires
        v1.kind() == v2.kind(),
    ensures
        !m.contains_key(v1.kind()) ==> lookup(
            after_register_if_absent(after_register_if_absent(m, v1), v2),
            v1.kind(),
        ) == Some(v1),
        after_register_if_absent(after_register_if_absent(m, v1), v2) == after_register_if_absent(
            m,
            v1,
        ),
{
}

} // verus!

verus! {

/// Writing to the bootstrap registry.
pub trait BootstrapRegistry {
    spec fn registered(&self) -> Map<BeanKind, Bean>;

    spec fn registry_wf(&self) -> bool;

    fn register(&mut self, bean: Bean) -> (r: bool)
        requires
            old(self).registry_wf(),
        ensures
            final(self).registry_wf(),
            final(self).registered() == after_set(old(self).registered(), bean),
            r == !old(self).registered().contains_key(bean.kind()),
    ;

    fn is_registered(&self, kind: BeanKind) -> (r: bool)
        requires
            self.registry_wf(),
        ensures
            r == self.registered().contains_key(kind),
    ;

    fn register_if_absent(&mut self, bean: Bean)
        requires
            old(self).registry_wf(),
        ensures
            final(self).registry_wf(),
            final(self).registered() == after_register_if_absent(old(self).registered(), bean),
    ;
}

/// Reading the bootstrap context.
pub trait BootstrapContext: BootstrapRegistry {
    spec fn bootstrap_properties(&self) -> BootstrapProperties;

    fn get_bootstrap_properties(&self) -> (r: &BootstrapProperties)
        ensures
            *r == self.bootstrap_properties(),
    ;

    fn get(&self, kind: BeanKind) -> (r: Option<&Bean>)
        requires
            self.registry_wf(),
        ensures
            match r {
                Some(b) => lookup(self.registered(), kind) == Some(*b),
                None => lookup(self.registered(), kind) == None::<Bean>,
            },
    ;
}

/// A bootstrap context that can be both read and written.
pub trait ConfigurableBootstrapContext: BootstrapContext {}

impl BootstrapRegistry for DefaultBootstrapContext {
    open spec fn registered(&self) -> Map<BeanKind, Bean> {
        self@
    }

    open spec fn registry_wf(&self) -> bool {
        self.wf()
    }

    fn register(&mut self, bean: Bean) -> (r: bool) {
        DefaultBootstrapContext::register(self, bean)
    }

    fn is_registered(&self, kind: BeanKind) -> (r: bool) {
        DefaultBootstrapContext::is_registered(self, kind)
    }

    fn register_if_absent(&mut self, bean: Bean) {
        DefaultBootstrapContext::register_if_absent(self, bean)
    }
}

impl BootstrapContext for DefaultBootstrapContext {
    open spec fn bootstrap_properties(&self) -> BootstrapProperties {
        self.properties()
    }

    fn get_bootstrap_properties(&self) -> (r: &BootstrapProperties) {
        DefaultBootstrapContext::get_bootstrap_properties(self)
    }

    fn get(&self, kind: BeanKind) -> (r: Option<&Bean>) {
        DefaultBootstrapContext::get(self, kind)
    }
}

impl ConfigurableBootstrapContext for DefaultBootstrapContext {}

impl crate::beans::BeanFactory for GenericApplicationContext {
    open spec fn beans(&self) -> Map<BeanKind, Bean> {
        self@
    }

    open spec fn well_formed(&self) -> bool {
        self.wf()
    }

    fn get(&self, kind: BeanKind) -> (r: &Bean) {
        self.bean_factory.get(kind)
    }

    fn try_get(&self, kind: BeanKind) -> (r: Option<&Bean>) {
        self.bean_factory.try_get(kind)
    }
}

impl crate::beans::ListableBeanFactory for GenericApplicationContext {
    fn get_bean_definition_count(&self) -> (r: usize) {
        self.bean_factory.get_bean_definition_count()
    }
}

} // verus!
