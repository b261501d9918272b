//! The bootstrap configuration: what `bootstrap.toml` describes, or the
//! built-in defaults when that file is absent.
use vstd::prelude::*;

verus! {

/// The settings read before anything else is built.
#[derive(Clone, Debug)]
pub struct BootstrapProperties {
    pub application: ApplicationProperties,
    pub logger: LoggerProperties,
}

#[derive(Clone, Debug)]
pub struct LoggerProperties {
    pub enabled: bool,
    pub level: String,
    pub file: String,
    pub log_dir: String,
}

#[derive(Clone, Debug)]
pub struct ConfigProperties {
    pub activate: ConfigActivateProperties,
    pub locations: Option<Vec<String>>,
    pub file_names: Option<Vec<String>>,
}

#[derive(Clone, Debug)]
pub struct ConfigActivateProperties {
    pub profiles: Vec<String>,
}

#[derive(Clone, Debug)]
pub struct CloudProperties {
    pub discovery: Option<DiscoveryProperties>,
    pub config: Option<CloudConfigProperties>,
}

/// Address and token of the discovery / configuration backend.
#[derive(Clone, Debug)]
pub struct ServerProperties {
    pub address: String,
    pub token: Option<String>,
}

/// The address under which this instance announces itself.
#[derive(Clone, Debug)]
pub struct HostProperties {
    pub ip: String,
    pub port: u16,
}

#[derive(Clone, Debug)]
pub struct DiscoveryProperties {
    pub server: ServerProperties,
    pub host: Option<HostProperties>,
    pub health: Option<ServiceProperties>,
}

#[derive(Clone, Debug)]
pub struct ServiceProperties {
    pub check: ServiceCheckProperties,
}

/// Health check: the path below the instance's root, and how often it runs.
#[derive(Clone, Debug)]
pub struct ServiceCheckProperties {
    pub path: String,
    pub interval: String,
}

#[derive(Clone, Debug)]
pub struct CloudConfigProperties {
    pub enabled: bool,
    pub address: String,
    pub token: Option<String>,
}

#[derive(Clone, Debug)]
pub struct ApplicationProperties {
    pub name: String,
    pub port: Option<u16>,
    pub config: ConfigProperties,
    pub cloud: Option<CloudProperties>,
}

/// A sequence of strings, as views.
pub open spec fn strings_view(v: Seq<String>) -> Seq<Seq<char>> {
    v.map_values(|s: String| s@)
}

impl BootstrapProperties {
    /// What holds of the defaults: profile `default`, location `.`, file
    /// `config.toml`, an empty name, no port, no cloud, logging off.
    pub open spec fn is_default(&self) -> bool {
        &&& self.application.name@ == Seq::<char>::empty()
        &&& self.application.port.is_none()
        &&& strings_view(self.application.config.activate.profiles@) == seq![("default")@]
        &&& self.application.config.locations.is_some()
        &&& strings_view(self.application.config.locations.unwrap()@) == seq![(".")@]
        &&& self.application.config.file_names.is_some()
        &&& strings_view(self.application.config.file_names.unwrap()@) == seq![("config.toml")@]
        &&& self.application.cloud.is_none()
        &&& !self.logger.enabled
        &&& self.logger.level@ == ("info")@
        &&& self.logger.file@ == ("info")@
        &&& self.logger.log_dir@ == ("./logs")@
    }

    pub fn get_application_name(&self) -> (r: String)
        ensures
            r == self.application.name,
    {
        self.application.name.clone()
    }

    /// The configured port, or 0 when none is set.
    pub fn get_application_port(&self) -> (r: u16)
        ensures
            r == match self.application.port {
                Some(p) => p,
                None => 0,
            },
    {
        match self.application.port {
            Some(p) => p,
            None => 0,
        }
    }
}

impl Default for BootstrapProperties {
    fn default() -> (r: BootstrapProperties)
        ensures
            r.is_default(),
    {
        let r = BootstrapProperties {
            application: ApplicationProperties {
                name: String::new(),
                port: None,
                config: ConfigProperties {
                    activate: ConfigActivateProperties {
                        profiles: vec![String::from_str("default")],
                    },
                    locations: Some(vec![String::from_str(".")]),
                    file_names: Some(vec![String::from_str("config.toml")]),
                },
                cloud: None,
            },
            logger: LoggerProperties {
                enabled: false,
                level: String::from_str("info"),
                file: String::from_str("info"),
                log_dir: String::from_str("./logs"),
            },
        };
        assert(strings_view(r.application.config.activate.profiles@) =~= seq![("default")@]);
        assert(strings_view(r.application.config.locations.unwrap()@) =~= seq![(".")@]);
        assert(strings_view(r.application.config.file_names.unwrap()@) =~= seq![("config.toml")@]);
        r
    }
}

} // verus!
