//! The instance that a discovery backend is told about when the application
//! has started, and how it is derived from the bootstrap settings.
use vstd::prelude::*;
use crate::properties::BootstrapProperties;
use crate::text::{decimal, to_decimal};

verus! {

/// One network-reachable instance of a service.
#[derive(Clone, Debug)]
pub struct ServiceInstance {
    pub instance_id: String,
    pub service_id: String,
    pub host: String,
    pub port: u32,
    pub is_secure: bool,
    pub metadata: Vec<(String, String)>,
    pub schema: String,
}

/// The health check that the backend runs against the instance.
#[derive(Clone, Debug)]
pub struct ServiceCheck {
    pub address: Option<String>,
    pub interval: Option<String>,
}

/// What is registered on start and deregistered on stop.
#[derive(Clone, Debug)]
pub struct Registration {
    pub service_instance: ServiceInstance,
    pub service_check: ServiceCheck,
}

/// Why no registration could be built.
#[derive(Clone, Copy, Debug, PartialEq, Eq, Structural)]
pub enum RegistrationError {
    /// No discovery backend is configured.
    NotConfigured,
    /// Neither the discovery host nor the application names a port.
    MissingPort,
}

/// `https` for port 443, else `http`.
pub open spec fn schema_for(port: u16) -> Seq<char> {
    if port == 443 {
        ("https")@
    } else {
        ("http")@
    }
}

/// `{schema}://{host}:{port}/{path}`.
pub open spec fn endpoint_url(schema: Seq<char>, host: Seq<char>, port: u16, path: Seq<char>) -> Seq<
    char,
> {
    schema + ("://")@ + host + (":")@ + decimal(port as nat) + ("/")@ + path
}

/// `{service}@{host}:{port}`.
pub open spec fn instance_id_of(service: Seq<char>, host: Seq<char>, port: u16) -> Seq<char> {
    service + ("@")@ + host + (":")@ + decimal(port as nat)
}

/// The host announced: the configured discovery host, else the machine's
/// host name, else its local address.
pub open spec fn announced_host(
    p: BootstrapProperties,
    host_name: Option<String>,
    local_ip: Seq<char>,
) -> Seq<char> {
    match p.application.cloud.unwrap().discovery.unwrap().host {
        Some(h) => h.ip@,
        None => match host_name {
            Some(n) => n@,
            None => local_ip,
        },
    }
}

/// The port announced: the configured discovery port, else the
/// application's port.
pub open spec fn announced_port(p: BootstrapProperties) -> Option<u16> {
    match p.application.cloud.unwrap().discovery.unwrap().host {
        Some(h) => Some(h.port),
        None => p.application.port,
    }
}

pub open spec fn discovery_configured(p: BootstrapProperties) -> bool {
    p.application.cloud matches Some(c) && c.discovery is Some
}

/// What a registration built from `p` holds.
pub open spec fn registration_matches(
    r: Registration,
    p: BootstrapProperties,
    host_name: Option<String>,
    local_ip: Seq<char>,
) -> bool {
    let host = announced_host(p, host_name, local_ip);
    let port = announced_port(p).unwrap();
    let schema = schema_for(port);
    let d = p.application.cloud.unwrap().discovery.unwrap();
    let i = r.service_instance;
    &&& i.service_id@ == p.application.name@
    &&& i.host@ == host
    &&& i.port == port as u32
    &&& i.schema@ == schema
    &&& i.is_secure == (port == 443)
    &&& i.metadata@.len() == 0
    &&& i.instance_id@ == instance_id_of(p.application.name@, host, port)
    &&& r.service_check.address matches Some(a) && a@ == match d.health {
        Some(h) => endpoint_url(schema, host, port, h.check.path@),
        None => endpoint_url(schema, host, port, ("actuator/health")@),
    }
    &&& r.service_check.interval matches Some(iv) && iv@ == match d.health {
        Some(h) => h.check.interval@,
        None => ("30s")@,
    }
}

/// Relies on hostname::get: the machine's host name, where it can be read
/// and is valid Unicode after lossy conversion. It depends on the machine,
/// so nothing is promised of it.
#[verifier::external_body]
fn machine_host_name() -> Option<String> {
    match hostname::get() {
        Ok(name) => Some(name.to_string_lossy().to_string()),
        Err(_) => None,
    }
}

fn endpoint(schema: &str, host: &String, port: u16, path: &str) -> (r: String)
    ensures
        r@ == endpoint_url(schema@, host@, port, path@),
{
    let mut u = String::from_str(schema);
    u.append("://");
    u.append(host.as_str());
    u.append(":");
    let digits = to_decimal(port as u64);
    u.append(digits.as_str());
    u.append("/");
    u.append(path);
    u
}

impl Registration {
    /// The registration announced once the application has started: the
    /// instance `{name}@{host}:{port}` with its health check.
    pub fn from_properties(
        properties: &BootstrapProperties,
        host_name: Option<String>,
        local_ip: &String,
    ) -> (r: Result<Registration, RegistrationError>)
        ensures
            !discovery_configured(*properties) ==> r == Err::<Registration, RegistrationError>(
                RegistrationError::NotConfigured,
            ),
            discovery_configured(*properties) && announced_port(*properties) is None ==> r == Err::<
                Registration,
                RegistrationError,
            >(RegistrationError::MissingPort),
            discovery_configured(*properties) && announced_port(*properties) is Some ==> (r matches Ok(
                reg,
            ) && registration_matches(reg, *properties, host_name, local_ip@)),
    {
        let cloud = match &properties.application.cloud {
            Some(c) => c,
            None => return Err(RegistrationError::NotConfigured),
        };
        let discovery = match &cloud.discovery {
            Some(d) => d,
            None => return Err(RegistrationError::NotConfigured),
        };
        let (host, port) = match &discovery.host {
            Some(h) => (h.ip.clone(), h.port),
            None => {
                let port = match properties.application.port {
                    Some(p) => p,
                    None => return Err(RegistrationError::MissingPort),
                };
                let host = match host_name {
                    Some(n) => n,
                    None => local_ip.clone(),
                };
                (host, port)
            },
        };
        proof {
            reveal_strlit("https");
            reveal_strlit("http");
        }
        let schema: &str = if port == 443 {
            "https"
        } else {
            "http"
        };
        let (address, interval) = match &discovery.health {
            Some(h) => (endpoint(schema, &host, port, h.check.path.as_str()), h.check.interval.clone()),
            None => (endpoint(schema, &host, port, "actuator/health"), String::from_str("30s")),
        };
        let service_id = properties.application.name.clone();
        let mut instance_id = service_id.clone();
        instance_id.append("@");
        instance_id.append(host.as_str());
        instance_id.append(":");
        let digits = to_decimal(port as u64);
        instance_id.append(digits.as_str());
        let service_instance = ServiceInstance {
            instance_id,
            service_id,
            host,
            port: port as u32,
            is_secure: port == 443,
            metadata: Vec::new(),
            schema: String::from_str(schema),
        };
        Ok(
            Registration {
                service_instance,
                service_check: ServiceCheck { address: Some(address), interval: Some(interval) },
            },
        )
    }
}

impl Registration {
    /// The registration of this machine: as `from_properties`, with the
    /// host name that the machine reports, if any.
    pub fn for_local_host(properties: &BootstrapProperties, local_ip: &String) -> (r: Result<
        Registration,
        RegistrationError,
    >)
        ensures
            !discovery_configured(*properties) ==> r == Err::<Registration, RegistrationError>(
                RegistrationError::NotConfigured,
            ),
            discovery_configured(*properties) && announced_port(*properties) is None ==> r == Err::<
                Registration,
                RegistrationError,
            >(RegistrationError::MissingPort),
            discovery_configured(*properties) && announced_port(*properties) is Some ==> (r matches Ok(
                reg,
            ) && exists|host_name: Option<String>|
                #[trigger] registration_matches(reg, *properties, host_name, local_ip@)),
    {
        let host_name = machine_host_name();
        let r = Self::from_properties(properties, host_name, local_ip);
        proof {
            if discovery_configured(*properties) && announced_port(*properties) is Some {
                let reg = r->Ok_0;
                assert(registration_matches(reg, *properties, host_name, local_ip@));
            }
        }
        r
    }
}

} // verus!
