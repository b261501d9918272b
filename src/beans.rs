//! The singleton registry: at most one bean per kind, where the kind of a
//! bean is the variant that it is stored as.
use vstd::prelude::*;
use std::collections::HashMap;
use crate::discovery::Registration;
use crate::initializer::ContextId;
use crate::properties::ServerProperties;

verus! {

broadcast use vstd::std_specs::hash::group_hash_axioms;

/// The identity under which a bean is stored.
#[derive(Clone, Copy, Debug, PartialEq, Eq, Structural)]
pub enum BeanKind {
    ContextId,
    Registration,
    DiscoveryServer,
}

impl BeanKind {
    pub open spec fn spec_id(self) -> u64 {
        match self {
            BeanKind::ContextId => 0,
            BeanKind::Registration => 1,
            BeanKind::DiscoveryServer => 2,
        }
    }

    /// The storage key of this kind; distinct kinds have distinct keys.
    #[verifier::when_used_as_spec(spec_id)]
    pub fn id(self) -> (r: u64)
        ensures
            r == self.spec_id(),
    {
        match self {
            BeanKind::ContextId => 0,
            BeanKind::Registration => 1,
            BeanKind::DiscoveryServer => 2,
        }
    }
}

/// A value held by a registry.
#[derive(Clone, Debug)]
pub enum Bean {
    ContextId(ContextId),
    Registration(Registration),
    DiscoveryServer(ServerProperties),
}

impl Bean {
    pub open spec fn spec_kind(&self) -> BeanKind {
        match self {
            Bean::ContextId(_) => BeanKind::ContextId,
            Bean::Registration(_) => BeanKind::Registration,
            Bean::DiscoveryServer(_) => BeanKind::DiscoveryServer,
        }
    }

    #[verifier::when_used_as_spec(spec_kind)]
    pub fn kind(&self) -> (r: BeanKind)
        ensures
            r == self.spec_kind(),
    {
        match self {
            Bean::ContextId(_) => BeanKind::ContextId,
            Bean::Registration(_) => BeanKind::Registration,
            Bean::DiscoveryServer(_) => BeanKind::DiscoveryServer,
        }
    }
}

/// The bean stored under `kind`, if any.
pub open spec fn lookup(m: Map<BeanKind, Bean>, kind: BeanKind) -> Option<Bean> {
    if m.contains_key(kind) {
        Some(m[kind])
    } else {
        None
    }
}

/// The registry after a replacing insert.
pub open spec fn after_set(m: Map<BeanKind, Bean>, bean: Bean) -> Map<BeanKind, Bean> {
    m.insert(bean.kind(), bean)
}

/// The registry after an insert that keeps a bean already there.
pub open spec fn after_register_if_absent(m: Map<BeanKind, Bean>, bean: Bean) -> Map<
    BeanKind,
    Bean,
> {
    if m.contains_key(bean.kind()) {
        m
    } else {
        m.insert(bean.kind(), bean)
    }
}

/// The kind whose key is `id`.
spec fn kind_of_id(id: u64) -> BeanKind {
    if id == 0 {
        BeanKind::ContextId
    } else if id == 1 {
        BeanKind::Registration
    } else {
        BeanKind::DiscoveryServer
    }
}

/// What is stored stays until replaced: after `set(v)` a lookup of its kind
/// gives `v`, and a second `set(v2)` of the same kind makes lookups give
/// `v2`; other kinds are untouched. A kind that was never set is absent from
/// the registry, so `try_get` gives `None` for it, and `get`, which requires
/// its kind to be registered, cannot be called for it.
pub proof fn lemma_set_then_get(m: Map<BeanKind, Bean>, v: Bean, v2: Bean, other: BeanKind)
    requires
        v2.kind() == v.kind(),
    ensures
        lookup(after_set(m, v), v.kind()) == Some(v),
        lookup(after_set(after_set(m, v), v2), v.kind()) == Some(v2),
        other != v.kind() ==> lookup(after_set(m, v), other) == lookup(m, other),
        !m.contains_key(other) && other != v.kind() ==> lookup(after_set(m, v), other) == None::<
            Bean,
        > && !after_set(m, v).contains_key(other),
        lookup(Map::<BeanKind, Bean>::empty(), other) == None::<Bean>,
{
}

proof fn lemma_id_injective(a: BeanKind, b: BeanKind)
    ensures
        a.spec_id() == b.spec_id() ==> a == b,
{
}

/// A type-keyed registry of singletons.
pub struct DefaultListableBeanFactory {
    beans: HashMap<u64, Bean>,
}

impl DefaultListableBeanFactory {
    /// Each stored bean sits under the key of its own kind.
    pub closed spec fn wf(&self) -> bool {
        forall|key: u64| #[trigger]
            self.beans@.contains_key(key) ==> self.beans@[key].kind().id() == key
    }

    /// The beans, by kind.
    pub closed spec fn view(&self) -> Map<BeanKind, Bean> {
        Map::new(
            |k: BeanKind| self.beans@.contains_key(k.id()),
            |k: BeanKind| self.beans@[k.id()],
        )
    }

    proof fn lemma_view_after_insert(&self, old_beans: Map<u64, Bean>, bean: Bean)
        requires
            self.beans@ == old_beans.insert(bean.kind().id(), bean),
        ensures
            self@ == Map::new(
                |k: BeanKind| old_beans.contains_key(k.id()),
                |k: BeanKind| old_beans[k.id()],
            ).insert(bean.kind(), bean),
    {
        assert forall|a: BeanKind, b: BeanKind| a.id() == b.id() implies a == b by {
            lemma_id_injective(a, b);
        }
        assert(self@ =~= Map::new(
            |k: BeanKind| old_beans.contains_key(k.id()),
            |k: BeanKind| old_beans[k.id()],
        ).insert(bean.kind(), bean));
    }

    /// An empty registry.
    pub fn new() -> (r: DefaultListableBeanFactory)
        ensures
            r.wf(),
            r@ == Map::<BeanKind, Bean>::empty(),
    {
        let r = DefaultListableBeanFactory { beans: HashMap::new() };
        assert(r@ =~= Map::<BeanKind, Bean>::empty());
        r
    }

    /// The bean of `kind`, which must have been registered.
    pub fn get(&self, kind: BeanKind) -> (r: &Bean)
        requires
            self.wf(),
            self@.contains_key(kind),
        ensures
            *r == self@[kind],
            r.kind() == kind,
    {
        self.beans.get(&kind.id()).unwrap()
    }

    /// The bean of `kind`, or `None` when none was registered.
    pub fn try_get(&self, kind: BeanKind) -> (r: Option<&Bean>)
        requires
            self.wf(),
        ensures
            r matches Some(b) ==> b.kind() == kind,
            match r {
                Some(b) => lookup(self@, kind) == Some(*b),
                None => lookup(self@, kind) == None::<Bean>,
            },
    {
        self.beans.get(&kind.id())
    }

    /// Whether a bean of `kind` is registered.
    pub fn is_registered(&self, kind: BeanKind) -> (r: bool)
        ensures
            r == self@.contains_key(kind),
    {
        self.beans.contains_key(&kind.id())
    }

    /// Stores `bean` under its kind, replacing any earlier one; true when
    /// no bean of that kind was there before.
    pub fn set(&mut self, bean: Bean) -> (r: bool)
        requires
            old(self).wf(),
        ensures
            final(self).wf(),
            final(self)@ == after_set(old(self)@, bean),
            r == !old(self)@.contains_key(bean.kind()),
    {
        let ghost old_beans = self.beans@;
        let key = bean.kind().id();
        let ghost b = bean;
        let previous = self.beans.insert(key, bean);
        proof {
            self.lemma_view_after_insert(old_beans, b);
            assert forall|k: u64| #[trigger]
                self.beans@.contains_key(k) implies self.beans@[k].kind().id() == k by {
                if k != key {
                    assert(old_beans.contains_key(k));
                }
            }
        }
        previous.is_none()
    }

    /// Takes out the bean of `kind`, if any.
    pub fn remove(&mut self, kind: BeanKind) -> (r: Option<Bean>)
        requires
            old(self).wf(),
        ensures
            final(self).wf(),
            final(self)@ == old(self)@.remove(kind),
            r == lookup(old(self)@, kind),
    {
        let ghost old_beans = self.beans@;
        let ghost old_view = self@;
        let r = self.beans.remove(&kind.id());
        proof {
            assert(self.beans@ == old_beans.remove(kind.id()));
            assert forall|a: BeanKind, b: BeanKind| a.id() == b.id() implies a == b by {
                lemma_id_injective(a, b);
            }
            assert(self@ =~= old_view.remove(kind));
        }
        r
    }

    /// Stores `bean` unless a bean of its kind is already there, which then
    /// stays as it is.
    pub fn register_if_absent(&mut self, bean: Bean)
        requires
            old(self).wf(),
        ensures
            final(self).wf(),
            final(self)@ == after_register_if_absent(old(self)@, bean),
    {
        if !self.is_registered(bean.kind()) {
            self.set(bean);
        }
    }

    /// How many beans are registered.
    pub fn get_bean_definition_count(&self) -> (r: usize)
        requires
            self.wf(),
        ensures
            r == self@.dom().len(),
    {
        proof {
            let f = |id: u64| kind_of_id(id);
            assert(self.beans@.dom().finite());
            assert forall|a: u64, b: u64|
                self.beans@.dom().contains(a) && self.beans@.dom().contains(b) && #[trigger] f(a)
                    == #[trigger] f(b) implies a == b by {
                assert(self.beans@[a].kind().id() == a);
                assert(self.beans@[b].kind().id() == b);
            }
            assert forall|k: BeanKind| #[trigger]
                self@.dom().contains(k) implies self.beans@.dom().map(f).contains(k) by {
                assert(f(k.id()) == k);
            }
            assert forall|k: BeanKind| #[trigger]
                self.beans@.dom().map(f).contains(k) implies self@.dom().contains(k) by {
                let id = choose|id: u64| self.beans@.dom().contains(id) && f(id) == k;
                assert(self.beans@[id].kind().id() == id);
            }
            assert(self.beans@.dom().map(f) =~= self@.dom());
            vstd::set_lib::lemma_map_size(self.beans@.dom(), self@.dom(), f);
        }
        self.beans.len()
    }
}

} // verus!

verus! {

/// Read access to a registry.
pub trait BeanFactory {
    spec fn beans(&self) -> Map<BeanKind, Bean>;

    spec fn well_formed(&self) -> bool;

    /// The bean of `kind`, which must be registered.
    fn get(&self, kind: BeanKind) -> (r: &Bean)
        requires
            self.well_formed(),
            self.beans().contains_key(kind),
        ensures
            *r == self.beans()[kind],
    ;

    /// The bean of `kind`, or `None`.
    fn try_get(&self, kind: BeanKind) -> (r: Option<&Bean>)
        requires
            self.well_formed(),
        ensures
            match r {
                Some(b) => lookup(self.beans(), kind) == Some(*b),
                None => lookup(self.beans(), kind) == None::<Bean>,
            },
    ;
}

/// A registry that can count its beans.
pub trait ListableBeanFactory: BeanFactory {
    fn get_bean_definition_count(&self) -> (r: usize)
        requires
            self.well_formed(),
        ensures
            r == self.beans().dom().len(),
    ;
}

/// A registry that can be written.
pub trait ConfigurableBeanFactory: BeanFactory {
    fn set(&mut self, bean: Bean) -> (r: bool)
        requires
            old(self).well_formed(),
        ensures
            final(self).well_formed(),
            final(self).beans() == after_set(old(self).beans(), bean),
            r == !old(self).beans().contains_key(bean.kind()),
    ;
}

impl BeanFactory for DefaultListableBeanFactory {
    open spec fn beans(&self) -> Map<BeanKind, Bean> {
        self@
    }

    open spec fn well_formed(&self) -> bool {
        self.wf()
    }

    fn get(&self, kind: BeanKind) -> (r: &Bean) {
        self.get(kind)
    }

    fn try_get(&self, kind: BeanKind) -> (r: Option<&Bean>) {
        self.try_get(kind)
    }
}

impl ListableBeanFactory for DefaultListableBeanFactory {
    fn get_bean_definition_count(&self) -> (r: usize) {
        self.get_bean_definition_count()
    }
}

impl ConfigurableBeanFactory for DefaultListableBeanFactory {
    fn set(&mut self, bean: Bean) -> (r: bool) {
        self.set(bean)
    }
}

} // verus!
