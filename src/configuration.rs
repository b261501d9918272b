//! Where configuration is looked for: the native files selected by the active
//! profiles, and the keys of the remote configuration.
use vstd::prelude::*;
use crate::properties::strings_view;
use crate::text::str_equal;
use crate::environment::{ApplicationEnvironment, resolve};

verus! {

/// The index of the first `.` in `s`, or its length when it holds none.
pub open spec fn dot_index(s: Seq<char>) -> nat
    decreases s.len(),
{
    if s.len() == 0 {
        0
    } else if s[0] == '.' {
        0
    } else {
        1 + dot_index(s.drop_first())
    }
}

/// The part of a file name before its extension.
pub open spec fn stem(file_name: Seq<char>) -> Seq<char> {
    file_name.subrange(0, dot_index(file_name) as int)
}

/// The extension of a file name with its dot; empty when it has none.
pub open spec fn extension(file_name: Seq<char>) -> Seq<char> {
    file_name.subrange(dot_index(file_name) as int, file_name.len() as int)
}

/// The file that `profile` selects for `file_name` in `location`: the name
/// itself for the profile `default`, else the name with `-{profile}` put
/// before the extension.
pub open spec fn candidate_name(location: Seq<char>, file_name: Seq<char>, profile: Seq<char>) -> Seq<
    char,
> {
    if profile == ("default")@ {
        location + ("/")@ + file_name
    } else {
        location + ("/")@ + stem(file_name) + ("-")@ + profile + extension(file_name)
    }
}

/// The candidates of one location: file names in order, and for each the
/// profiles in order.
pub open spec fn location_candidates(
    location: Seq<char>,
    file_names: Seq<Seq<char>>,
    profiles: Seq<Seq<char>>,
) -> Seq<Seq<char>>
    decreases file_names.len(),
{
    if file_names.len() == 0 {
        Seq::empty()
    } else {
        location_candidates(location, file_names.drop_last(), profiles) + profiles.map_values(
            |p: Seq<char>| candidate_name(location, file_names.last(), p),
        )
    }
}

/// All candidates: locations, then file names, then profiles.
pub open spec fn all_candidates(
    locations: Seq<Seq<char>>,
    file_names: Seq<Seq<char>>,
    profiles: Seq<Seq<char>>,
) -> Seq<Seq<char>>
    decreases locations.len(),
{
    if locations.len() == 0 {
        Seq::empty()
    } else {
        all_candidates(locations.drop_last(), file_names, profiles) + location_candidates(
            locations.last(),
            file_names,
            profiles,
        )
    }
}

/// The candidates that exist, in order.
pub open spec fn existing(candidates: Seq<Seq<char>>, present: Seq<bool>) -> Seq<Seq<char>>
    decreases candidates.len(),
{
    if candidates.len() == 0 || present.len() == 0 {
        Seq::empty()
    } else if present.last() {
        existing(candidates.drop_last(), present.drop_last()).push(candidates.last())
    } else {
        existing(candidates.drop_last(), present.drop_last())
    }
}

/// The files read: the existing candidates, or the fallback file where none
/// exists and it does.
pub open spec fn selected_files(candidates: Seq<Seq<char>>, present: Seq<bool>, fallback_exists: bool) -> Seq<
    Seq<char>,
> {
    if existing(candidates, present).len() > 0 {
        existing(candidates, present)
    } else if fallback_exists {
        seq![fallback_config_file()]
    } else {
        Seq::empty()
    }
}

/// Relies on std's `Path::exists`: whether a file is at `path` now. What is
/// on disk may change, so nothing is promised.
#[verifier::external_body]
fn path_exists(path: &str) -> bool {
    std::path::Path::new(path).exists()
}

/// The key of the remote configuration of `application_name` under `profile`.
pub open spec fn remote_key(profile: Seq<char>, application_name: Seq<char>) -> Seq<char> {
    if profile == ("default")@ {
        application_name
    } else {
        profile + ("/")@ + application_name
    }
}

/// The file used when no profile-selected file exists.
pub open spec fn fallback_config_file() -> Seq<char> {
    ("./config.toml")@
}

proof fn lemma_dot_index_at(s: Seq<char>, i: int)
    requires
        0 <= i <= s.len(),
        i == s.len() || s[i] == '.',
        forall|j: int| 0 <= j < i ==> s[j] != '.',
    ensures
        dot_index(s) == i,
    decreases s.len(),
{
    if s.len() > 0 && i > 0 {
        assert forall|j: int| 0 <= j < i - 1 implies s.drop_first()[j] != '.' by {
            assert(s[j + 1] != '.');
        }
        lemma_dot_index_at(s.drop_first(), i - 1);
    }
}

/// The index of the first `.` in `s`.
fn find_dot(s: &str) -> (r: usize)
    ensures
        r == dot_index(s@),
        r <= s@.len(),
{
    let n = s.unicode_len();
    let mut i: usize = 0;
    while i < n
        invariant
            n == s@.len(),
            i <= n,
            forall|j: int| 0 <= j < i ==> s@[j] != '.',
        decreases n - i,
    {
        if s.get_char(i) == '.' {
            proof {
                lemma_dot_index_at(s@, i as int);
            }
            return i;
        }
        i = i + 1;
    }
    proof {
        lemma_dot_index_at(s@, i as int);
    }
    i
}

/// Whether `profile` is the profile `default`.
fn is_default_profile(profile: &String) -> (r: bool)
    ensures
        r == (profile@ == ("default")@),
{
    str_equal(profile.as_str(), "default")
}

/// Resolves where configuration is looked for.
pub struct Configuration {}

impl Configuration {
    /// The candidate files, as views.
    pub open spec fn spec_candidates(
        profiles: Seq<String>,
        locations: Option<Vec<String>>,
        file_names: Option<Vec<String>>,
    ) -> Seq<Seq<char>> {
        match (locations, file_names) {
            (Some(l), Some(f)) => all_candidates(
                strings_view(l@),
                strings_view(f@),
                strings_view(profiles),
            ),
            _ => Seq::empty(),
        }
    }

    /// The file that `profile` selects for `file_name` in `location`.
    pub fn candidate_file(location: &String, file_name: &String, profile: &String) -> (r: String)
        ensures
            r@ == candidate_name(location@, file_name@, profile@),
    {
        let mut full = location.clone();
        full.append("/");
        if is_default_profile(profile) {
            full.append(file_name.as_str());
        } else {
            let dot = find_dot(file_name.as_str());
            let len = file_name.as_str().unicode_len();
            full.append(file_name.as_str().substring_char(0, dot));
            full.append("-");
            full.append(profile.as_str());
            full.append(file_name.as_str().substring_char(dot, len));
        }
        full
    }

    /// Every candidate configuration file, in the order locations, then file
    /// names, then profiles; none where locations or file names are unset.
    pub fn get_native_config_candidates(
        activate_profiles: &Vec<String>,
        config_locations: &Option<Vec<String>>,
        config_file_names: &Option<Vec<String>>,
    ) -> (r: Vec<String>)
        ensures
            strings_view(r@) == Self::spec_candidates(
                activate_profiles@,
                *config_locations,
                *config_file_names,
            ),
    {
        let mut r: Vec<String> = Vec::new();
        match (config_locations, config_file_names) {
            (Some(locations), Some(file_names)) => {
                let ghost names = strings_view(file_names@);
                let ghost profiles = strings_view(activate_profiles@);
                for li in 0..locations.len()
                    invariant
                        names == strings_view(file_names@),
                        profiles == strings_view(activate_profiles@),
                        strings_view(r@) == all_candidates(
                            strings_view(locations@.subrange(0, li as int)),
                            names,
                            profiles,
                        ),
                {
                    let location = &locations[li];
                    let ghost start = strings_view(r@);
                    for fi in 0..file_names.len()
                        invariant
                            names == strings_view(file_names@),
                            profiles == strings_view(activate_profiles@),
                            strings_view(r@) == start + location_candidates(
                                location@,
                                names.subrange(0, fi as int),
                                profiles,
                            ),
                    {
                        let file_name = &file_names[fi];
                        let ghost before = strings_view(r@);
                        for pi in 0..activate_profiles.len()
                            invariant
                                profiles == strings_view(activate_profiles@),
                                strings_view(r@) == before + profiles.subrange(0, pi as int).map_values(
                                    |p: Seq<char>| candidate_name(location@, file_name@, p),
                                ),
                        {
                            let c = Self::candidate_file(location, file_name, &activate_profiles[pi]);
                            let ghost old_r = r@;
                            r.push(c);
                            assert(strings_view(r@) =~= strings_view(old_r).push(c@));
                            assert(profiles.subrange(0, pi + 1) =~= profiles.subrange(0, pi as int).push(
                                profiles[pi as int],
                            ));
                            assert(strings_view(r@) =~= before + profiles.subrange(
                                0,
                                pi + 1,
                            ).map_values(|p: Seq<char>| candidate_name(location@, file_name@, p)));
                        }
                        assert(profiles.subrange(0, activate_profiles.len() as int) =~= profiles);
                        assert(names.subrange(0, fi + 1).drop_last() =~= names.subrange(0, fi as int));
                        assert(names.subrange(0, fi + 1).last() == file_name@);
                        assert(strings_view(r@) =~= start + location_candidates(
                            location@,
                            names.subrange(0, fi + 1),
                            profiles,
                        ));
                    }
                    assert(names.subrange(0, file_names.len() as int) =~= names);
                    assert(strings_view(locations@.subrange(0, li + 1)).drop_last() =~= strings_view(
                        locations@.subrange(0, li as int),
                    ));
                    assert(strings_view(locations@.subrange(0, li + 1)).last() == location@);
                }
                assert(locations@.subrange(0, locations.len() as int) =~= locations@);
            },
            _ => {
                assert(strings_view(r@) =~= Seq::<Seq<char>>::empty());
            },
        }
        r
    }

    /// The candidates whose flag in `present` is set, in order; where none is,
    /// `./config.toml` if `fallback_exists`, else nothing.
    pub fn select_config_files(
        candidates: &Vec<String>,
        present: &Vec<bool>,
        fallback_exists: bool,
    ) -> (r: Vec<String>)
        requires
            present@.len() == candidates@.len(),
        ensures
            strings_view(r@) == selected_files(strings_view(candidates@), present@, fallback_exists),
    {
        let mut r: Vec<String> = Vec::new();
        let ghost cands = strings_view(candidates@);
        for i in 0..candidates.len()
            invariant
                present@.len() == candidates@.len(),
                cands == strings_view(candidates@),
                strings_view(r@) == existing(cands.subrange(0, i as int), present@.subrange(0, i as int)),
        {
            assert(cands.subrange(0, i + 1).drop_last() =~= cands.subrange(0, i as int));
            assert(present@.subrange(0, i + 1).drop_last() =~= present@.subrange(0, i as int));
            if present[i] {
                let ghost old_r = r@;
                r.push(candidates[i].clone());
                assert(strings_view(r@) =~= strings_view(old_r).push(cands[i as int]));
                assert(strings_view(r@) =~= existing(
                    cands.subrange(0, i as int),
                    present@.subrange(0, i as int),
                ).push(cands[i as int]));
            }
        }
        assert(cands.subrange(0, candidates.len() as int) =~= cands);
        assert(present@.subrange(0, candidates.len() as int) =~= present@);
        if r.len() == 0 && fallback_exists {
            r.push(String::from_str("./config.toml"));
            assert(strings_view(r@) =~= seq![fallback_config_file()]);
        }
        proof {
            if r@.len() == 0 {
                assert(strings_view(r@) =~= Seq::<Seq<char>>::empty());
            }
        }
        r
    }

    /// The configuration files on disk: the candidates of the active
    /// profiles that exist, in order, else `./config.toml` if it exists.
    /// Which files exist is read from disk at the call.
    pub fn get_native_config_files(
        activate_profiles: &Vec<String>,
        config_locations: &Option<Vec<String>>,
        config_file_names: &Option<Vec<String>>,
    ) -> (r: Vec<String>)
        ensures
            exists|present: Seq<bool>, fallback_exists: bool|
                #![trigger selected_files(
                    Self::spec_candidates(activate_profiles@, *config_locations, *config_file_names),
                    present,
                    fallback_exists,
                )]
                present.len() == Self::spec_candidates(
                    activate_profiles@,
                    *config_locations,
                    *config_file_names,
                ).len() && strings_view(r@) == selected_files(
                    Self::spec_candidates(activate_profiles@, *config_locations, *config_file_names),
                    present,
                    fallback_exists,
                ),
    {
        let candidates = Self::get_native_config_candidates(
            activate_profiles,
            config_locations,
            config_file_names,
        );
        let mut present: Vec<bool> = Vec::new();
        for i in 0..candidates.len()
            invariant
                present@.len() == i,
        {
            present.push(path_exists(candidates[i].as_str()));
        }
        let fallback_exists = path_exists("./config.toml");
        Self::select_config_files(&candidates, &present, fallback_exists)
    }

    /// Where remote configuration is read from: the address and token of the
    /// configuration backend when `application.cloud.config.enabled` is
    /// true and an address is set; `None` otherwise.
    pub fn get_remote_config_server(environment: &ApplicationEnvironment) -> (r: Option<
        (String, Option<String>),
    >)
        ensures
            ({
                let s = environment.sources();
                match (
                    resolve::<bool>(s, ("application.cloud.config.enabled")@),
                    resolve::<String>(s, ("application.cloud.config.address")@),
                ) {
                    (Some(true), Some(a)) => r == Some(
                        (a, resolve::<String>(s, ("application.cloud.config.token")@)),
                    ),
                    _ => r is None,
                }
            }),
    {
        let enabled = environment.get_property::<bool>("application.cloud.config.enabled");
        let address = environment.get_property::<String>("application.cloud.config.address");
        match (enabled, address) {
            (Some(true), Some(a)) => {
                let token = environment.get_property::<String>("application.cloud.config.token");
                Some((a, token))
            },
            _ => None,
        }
    }

    /// The remote configuration key of each active profile, in order.
    pub fn get_remote_config_keys(activate_profiles: &Vec<String>, application_name: &String) -> (r:
        Vec<String>)
        ensures
            strings_view(r@) == strings_view(activate_profiles@).map_values(
                |p: Seq<char>| remote_key(p, application_name@),
            ),
    {
        let mut r: Vec<String> = Vec::new();
        let ghost profiles = strings_view(activate_profiles@);
        for i in 0..activate_profiles.len()
            invariant
                profiles == strings_view(activate_profiles@),
                strings_view(r@) == profiles.subrange(0, i as int).map_values(
                    |p: Seq<char>| remote_key(p, application_name@),
                ),
        {
            let profile = &activate_profiles[i];
            let key = if is_default_profile(profile) {
                application_name.clone()
            } else {
                let mut k = profile.clone();
                k.append("/");
                k.append(application_name.as_str());
                k
            };
            let ghost old_r = r@;
            r.push(key);
            assert(strings_view(r@) =~= strings_view(old_r).push(key@));
            assert(profiles.subrange(0, i + 1) =~= profiles.subrange(0, i as int).push(
                profiles[i as int],
            ));
            assert(strings_view(r@) =~= profiles.subrange(0, i + 1).map_values(
                |p: Seq<char>| remote_key(p, application_name@),
            ));
        }
        assert(profiles.subrange(0, activate_profiles.len() as int) =~= profiles);
        r
    }
}

} // verus!
