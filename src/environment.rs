//! Layered configuration: an ordered list of named property sources, where
//! the first source that holds a key with a value of the wanted type wins.
use vstd::prelude::*;
use crate::text::str_equal;

verus! {

/// A configuration value.
#[derive(Clone, Debug)]
pub enum PropertyValue {
    Bool(bool),
    Integer(i64),
    Text(String),
}

/// A type that can be read out of a property value; reading fails when the
/// value has another kind or does not fit.
pub trait FromProperty: Sized {
    spec fn spec_from_property(v: PropertyValue) -> Option<Self>;

    fn from_property(v: &PropertyValue) -> (r: Option<Self>)
        ensures
            r == Self::spec_from_property(*v),
    ;
}

impl FromProperty for bool {
    open spec fn spec_from_property(v: PropertyValue) -> Option<bool> {
        match v {
            PropertyValue::Bool(b) => Some(b),
            _ => None,
        }
    }

    fn from_property(v: &PropertyValue) -> (r: Option<bool>) {
        match v {
            PropertyValue::Bool(b) => Some(*b),
            _ => None,
        }
    }
}

impl FromProperty for i64 {
    open spec fn spec_from_property(v: PropertyValue) -> Option<i64> {
        match v {
            PropertyValue::Integer(i) => Some(i),
            _ => None,
        }
    }

    fn from_property(v: &PropertyValue) -> (r: Option<i64>) {
        match v {
            PropertyValue::Integer(i) => Some(*i),
            _ => None,
        }
    }
}

impl FromProperty for i32 {
    open spec fn spec_from_property(v: PropertyValue) -> Option<i32> {
        match v {
            PropertyValue::Integer(i) => if i32::MIN <= i <= i32::MAX {
                Some(i as i32)
            } else {
                None
            },
            _ => None,
        }
    }

    fn from_property(v: &PropertyValue) -> (r: Option<i32>) {
        match v {
            PropertyValue::Integer(i) => if i32::MIN as i64 <= *i && *i <= i32::MAX as i64 {
                Some(*i as i32)
            } else {
                None
            },
            _ => None,
        }
    }
}

impl FromProperty for u16 {
    open spec fn spec_from_property(v: PropertyValue) -> Option<u16> {
        match v {
            PropertyValue::Integer(i) => if 0 <= i <= u16::MAX {
                Some(i as u16)
            } else {
                None
            },
            _ => None,
        }
    }

    fn from_property(v: &PropertyValue) -> (r: Option<u16>) {
        match v {
            PropertyValue::Integer(i) => if 0 <= *i && *i <= u16::MAX as i64 {
                Some(*i as u16)
            } else {
                None
            },
            _ => None,
        }
    }
}

impl FromProperty for String {
    open spec fn spec_from_property(v: PropertyValue) -> Option<String> {
        match v {
            PropertyValue::Text(s) => Some(s),
            _ => None,
        }
    }

    fn from_property(v: &PropertyValue) -> (r: Option<String>) {
        match v {
            PropertyValue::Text(s) => Some(s.clone()),
            _ => None,
        }
    }
}

/// A named set of flattened, dot-separated keys and their values.
#[derive(Clone, Debug)]
pub struct PropertySource {
    pub name: String,
    pub entries: Vec<(String, PropertyValue)>,
}

/// The value of the first entry under `key`.
pub open spec fn entry_lookup(entries: Seq<(String, PropertyValue)>, key: Seq<char>) -> Option<
    PropertyValue,
>
    decreases entries.len(),
{
    if entries.len() == 0 {
        None
    } else if entries[0].0@ == key {
        Some(entries[0].1)
    } else {
        entry_lookup(entries.drop_first(), key)
    }
}

/// `key` read as a `T` from one source.
pub open spec fn source_property<T: FromProperty>(s: PropertySource, key: Seq<char>) -> Option<T> {
    match entry_lookup(s.entries@, key) {
        Some(v) => T::spec_from_property(v),
        None => None,
    }
}

/// `key` read as a `T` from the first source, in order, where that succeeds.
pub open spec fn resolve<T: FromProperty>(sources: Seq<PropertySource>, key: Seq<char>) -> Option<T>
    decreases sources.len(),
{
    if sources.len() == 0 {
        None
    } else {
        match source_property::<T>(sources[0], key) {
            Some(v) => Some(v),
            None => resolve::<T>(sources.drop_first(), key),
        }
    }
}

impl PropertySource {
    /// `key` read as a `T`; `None` when the key is absent or its value is of
    /// another type.
    pub fn get_property<T: FromProperty>(&self, key: &str) -> (r: Option<T>)
        ensures
            r == source_property::<T>(*self, key@),
    {
        let n = self.entries.len();
        let mut i: usize = 0;
        assert(self.entries@.subrange(0, n as int) =~= self.entries@);
        while i < n
            invariant
                n == self.entries@.len(),
                i <= n,
                entry_lookup(self.entries@, key@) == entry_lookup(
                    self.entries@.subrange(i as int, n as int),
                    key@,
                ),
            decreases n - i,
        {
            assert(self.entries@.subrange(i as int, n as int).drop_first() =~= self.entries@.subrange(
                i + 1,
                n as int,
            ));
            if str_equal(self.entries[i].0.as_str(), key) {
                return T::from_property(&self.entries[i].1);
            }
            i = i + 1;
        }
        None
    }
}

/// The ordered sources of an environment; the first has the highest priority.
#[derive(Clone, Debug)]
pub struct MutablePropertySources {
    sources: Vec<PropertySource>,
}

impl MutablePropertySources {
    pub closed spec fn view(&self) -> Seq<PropertySource> {
        self.sources@
    }

    pub fn new() -> (r: MutablePropertySources)
        ensures
            r@ == Seq::<PropertySource>::empty(),
    {
        MutablePropertySources { sources: Vec::new() }
    }

    /// Appends `property_source` with the lowest priority.
    pub fn add_last(&mut self, property_source: PropertySource)
        ensures
            final(self)@ == old(self)@.push(property_source),
    {
        self.sources.push(property_source);
    }

    pub fn get_sources(&self) -> (r: &Vec<PropertySource>)
        ensures
            r@ == self@,
    {
        &self.sources
    }
}

/// Active profiles, where to look for configuration files, and the sources
/// that were loaded.
#[derive(Clone, Debug)]
pub struct ApplicationEnvironment {
    active_profiles: Vec<String>,
    config_locations: Option<Vec<String>>,
    config_file_names: Option<Vec<String>>,
    property_sources: MutablePropertySources,
}

/// A copy of a list of strings.
pub fn copy_strings(v: &Vec<String>) -> (r: Vec<String>)
    ensures
        r@ == v@,
{
    let mut r: Vec<String> = Vec::new();
    for i in 0..v.len()
        invariant
            r@ == v@.subrange(0, i as int),
    {
        r.push(v[i].clone());
        assert(r@ =~= v@.subrange(0, i + 1));
    }
    assert(r@ =~= v@);
    r
}

/// A copy of an optional list of strings.
pub fn copy_opt_strings(v: &Option<Vec<String>>) -> (r: Option<Vec<String>>)
    ensures
        r matches Some(l) <==> v is Some,
        r matches Some(l) ==> l@ == v->Some_0@,
{
    match v {
        Some(l) => Some(copy_strings(l)),
        None => None,
    }
}

impl ApplicationEnvironment {
    pub closed spec fn spec_active_profiles(&self) -> Seq<String> {
        self.active_profiles@
    }

    pub closed spec fn spec_config_locations(&self) -> Option<Seq<String>> {
        match self.config_locations {
            Some(l) => Some(l@),
            None => None,
        }
    }

    pub closed spec fn spec_file_names(&self) -> Option<Seq<String>> {
        match self.config_file_names {
            Some(l) => Some(l@),
            None => None,
        }
    }

    /// The sources in priority order.
    pub closed spec fn sources(&self) -> Seq<PropertySource> {
        self.property_sources@
    }

    /// An environment with no sources.
    pub fn new(
        active_profiles: Vec<String>,
        locations: Option<Vec<String>>,
        file_names: Option<Vec<String>>,
    ) -> (r: ApplicationEnvironment)
        ensures
            r.spec_active_profiles() == active_profiles@,
            r.spec_config_locations() == (match locations {
                Some(l) => Some(l@),
                None => None,
            }),
            r.spec_file_names() == (match file_names {
                Some(l) => Some(l@),
                None => None,
            }),
            r.sources() == Seq::<PropertySource>::empty(),
    {
        ApplicationEnvironment {
            active_profiles,
            config_locations: locations,
            config_file_names: file_names,
            property_sources: MutablePropertySources::new(),
        }
    }

    pub fn get_active_profiles(&self) -> (r: Vec<String>)
        ensures
            r@ == self.spec_active_profiles(),
    {
        copy_strings(&self.active_profiles)
    }

    pub fn get_config_locations(&self) -> (r: Option<Vec<String>>)
        ensures
            r matches Some(l) <==> self.spec_config_locations() is Some,
            r matches Some(l) ==> Some(l@) == self.spec_config_locations(),
    {
        copy_opt_strings(&self.config_locations)
    }

    pub fn get_file_names(&self) -> (r: Option<Vec<String>>)
        ensures
            r matches Some(l) <==> self.spec_file_names() is Some,
            r matches Some(l) ==> Some(l@) == self.spec_file_names(),
    {
        copy_opt_strings(&self.config_file_names)
    }

    /// Appends a source with the lowest priority.
    pub fn add_property_source(&mut self, property_source: PropertySource)
        ensures
            final(self).sources() == old(self).sources().push(property_source),
            final(self).spec_active_profiles() == old(self).spec_active_profiles(),
            final(self).spec_config_locations() == old(self).spec_config_locations(),
            final(self).spec_file_names() == old(self).spec_file_names(),
    {
        self.property_sources.add_last(property_source);
    }

    pub fn get_property_sources(&self) -> (r: &MutablePropertySources)
        ensures
            r@ == self.sources(),
    {
        &self.property_sources
    }

    /// `key` read as a `T` from the first source that holds it with a value
    /// of that type; later sources are asked when an earlier one lacks the
    /// key or holds a value of another type.
    pub fn get_property<T: FromProperty>(&self, key: &str) -> (r: Option<T>)
        ensures
            r == resolve::<T>(self.sources(), key@),
    {
        let sources = self.property_sources.get_sources();
        let n = sources.len();
        let mut i: usize = 0;
        assert(sources@.subrange(0, n as int) =~= sources@);
        while i < n
            invariant
                n == sources@.len(),
                sources@ == self.sources(),
                i <= n,
                resolve::<T>(self.sources(), key@) == resolve::<T>(
                    sources@.subrange(i as int, n as int),
                    key@,
                ),
            decreases n - i,
        {
            assert(sources@.subrange(i as int, n as int).drop_first() =~= sources@.subrange(
                i + 1,
                n as int,
            ));
            let found = sources[i].get_property::<T>(key);
            if found.is_some() {
                return found;
            }
            i = i + 1;
        }
        None
    }

    /// `key` read as a `T`, or `default` where no source resolves it.
    pub fn get_property_default<T: FromProperty>(&self, key: &str, default: T) -> (r: T)
        ensures
            r == (match resolve::<T>(self.sources(), key@) {
                Some(v) => v,
                None => default,
            }),
    {
        match self.get_property::<T>(key) {
            Some(v) => v,
            None => default,
        }
    }
}

/// Earlier sources take precedence: where the first source resolves `key`,
/// that value is the result whatever follows; where it does not, the result
/// is what the remaining sources give; with no sources there is no value.
pub proof fn lemma_first_source_wins<T: FromProperty>(
    sources: Seq<PropertySource>,
    key: Seq<char>,
)
    ensures
        sources.len() == 0 ==> resolve::<T>(sources, key) == None::<T>,
        sources.len() > 0 && source_property::<T>(sources[0], key) is Some ==> resolve::<T>(
            sources,
            key,
        ) == source_property::<T>(sources[0], key),
        sources.len() > 0 && source_property::<T>(sources[0], key) is None ==> resolve::<T>(
            sources,
            key,
        ) == resolve::<T>(sources.drop_first(), key),
{
}

/// Appending a source never changes a key that the earlier sources already
/// resolve.
pub proof fn lemma_append_keeps_resolved<T: FromProperty>(
    sources: Seq<PropertySource>,
    extra: PropertySource,
    key: Seq<char>,
)
    requires
        resolve::<T>(sources, key) is Some,
    ensures
        resolve::<T>(sources.push(extra), key) == resolve::<T>(sources, key),
    decreases sources.len(),
{
    assert(sources.push(extra).drop_first() =~= sources.drop_first().push(extra));
    if source_property::<T>(sources[0], key) is None {
        lemma_append_keeps_resolved::<T>(sources.drop_first(), extra, key);
    }
}

/// A key that no source resolves is absent from the environment.
pub proof fn lemma_unresolved_is_none<T: FromProperty>(sources: Seq<PropertySource>, key: Seq<char>)
    requires
        forall|i: int| 0 <= i < sources.len() ==> #[trigger] source_property::<T>(sources[i], key)
            is None,
    ensures
        resolve::<T>(sources, key) == None::<T>,
    decreases sources.len(),
{
    if sources.len() > 0 {
        assert forall|i: int| 0 <= i < sources.drop_first().len() implies #[trigger] source_property::<T>(
            sources.drop_first()[i],
            key,
        ) is None by {
            assert(sources.drop_first()[i] == sources[i + 1]);
        }
        lemma_unresolved_is_none::<T>(sources.drop_first(), key);
    }
}

} // verus!

verus! {

/// The profile and search settings of an environment.
pub trait Environment {
    spec fn profiles(&self) -> Seq<String>;

    spec fn locations(&self) -> Option<Seq<String>>;

    spec fn file_names(&self) -> Option<Seq<String>>;

    fn get_active_profiles(&self) -> (r: Vec<String>)
        ensures
            r@ == self.profiles(),
    ;

    fn get_config_locations(&self) -> (r: Option<Vec<String>>)
        ensures
            r matches Some(l) <==> self.locations() is Some,
            r matches Some(l) ==> Some(l@) == self.locations(),
    ;

    fn get_file_names(&self) -> (r: Option<Vec<String>>)
        ensures
            r matches Some(l) <==> self.file_names() is Some,
            r matches Some(l) ==> Some(l@) == self.file_names(),
    ;
}

impl Environment for ApplicationEnvironment {
    open spec fn profiles(&self) -> Seq<String> {
        self.spec_active_profiles()
    }

    open spec fn locations(&self) -> Option<Seq<String>> {
        self.spec_config_locations()
    }

    open spec fn file_names(&self) -> Option<Seq<String>> {
        self.spec_file_names()
    }

    fn get_active_profiles(&self) -> (r: Vec<String>) {
        ApplicationEnvironment::get_active_profiles(self)
    }

    fn get_config_locations(&self) -> (r: Option<Vec<String>>) {
        ApplicationEnvironment::get_config_locations(self)
    }

    fn get_file_names(&self) -> (r: Option<Vec<String>>) {
        ApplicationEnvironment::get_file_names(self)
    }
}

} // verus!
