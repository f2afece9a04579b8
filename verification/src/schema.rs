//! The schema model: hosts, devices, properties.
//!
//! A configuration file declares a set of named hosts; each host owns a
//! sequence of devices, and each device a sequence of typed properties.
//! The sequences keep declaration order, which later fixes the order of
//! the discovery announcements.

use vstd::prelude::*;

verus! {

/// The type of a property's value. A closed variant set: adding a datatype
/// means adding one case here and one arm to value parsing and formatting,
/// never touching the dispatcher itself.
#[derive(Clone, Copy, PartialEq, Eq, Structural, Debug)]
pub enum Datatype {
    Boolean,
}

/// One property of a device: its datatype, whether remote controllers may
/// set it, whether its value is retained by the transport, and the external
/// command to run when it is set. The command is a literal argument list;
/// its first element is the executable path.
pub struct PropertyConfig {
    pub datatype: Datatype,
    pub settable: bool,
    pub retained: bool,
    pub run_command: Vec<String>,
}

/// A property together with its id, unique within the owning device.
pub struct PropertyEntry {
    pub id: String,
    pub config: PropertyConfig,
}

/// A device: an ordered sequence of properties.
pub struct DeviceConfig {
    pub properties: Vec<PropertyEntry>,
}

/// A device together with its id, unique within the owning host.
pub struct DeviceEntry {
    pub id: String,
    pub config: DeviceConfig,
}

/// One deployable installation: an ordered sequence of devices.
pub struct HostConfig {
    pub devices: Vec<DeviceEntry>,
}

/// A host together with the name that selects it in the configuration file.
pub struct HostEntry {
    pub name: String,
    pub config: HostConfig,
}

/// The whole configuration file: an ordered sequence of named hosts.
pub struct Configurations {
    pub hosts: Vec<HostEntry>,
}

/// A configuration error, fatal at startup.
#[derive(Clone, Copy, PartialEq, Eq, Structural, Debug)]
pub enum ConfigError {
    /// The requested host name is absent from the configuration file.
    NotFound,
    /// The file failed to parse, a required field is missing or of the
    /// wrong type, or a property's command is empty.
    Malformed,
    /// A device id, or a (device id, property id) pair, occurs twice.
    DuplicateId,
}

impl Configurations {
    /// Whether some host of this configuration bears the given name.
    pub open spec fn has_host(self, name: Seq<char>) -> bool {
        exists|i: int| 0 <= i < self.hosts@.len() && self.hosts@[i].name@ == name
    }
}

/// Selects the host with the given name, consuming the configuration.
///
/// Returns the first host whose name matches, or `ConfigError::NotFound`
/// when no host of that name is declared.
pub fn select_host(cfgs: Configurations, name: &String) -> (r: Result<HostConfig, ConfigError>)
    ensures
        r is Ok <==> cfgs.has_host(name@),
        r matches Ok(h) ==> exists|i: int|
            0 <= i < cfgs.hosts@.len() && cfgs.hosts@[i].name@ == name@ && h
                == cfgs.hosts@[i].config && forall|j: int|
                0 <= j < i ==> cfgs.hosts@[j].name@ != name@,
        r matches Err(e) ==> e is NotFound,
{
    let mut hosts = cfgs.hosts;
    let ghost all = hosts@;
    let mut i: usize = 0;
    #[verifier::loop_isolation(false)]
    while i < hosts.len()
        invariant
            hosts@ == all,
            0 <= i <= all.len(),
            forall|j: int| 0 <= j < i ==> all[j].name@ != name@,
        decreases all.len() - i,
    {
        if hosts[i].name == *name {
            let entry = hosts.remove(i);
            proof {
                assert(0 <= i < cfgs.hosts@.len() && cfgs.hosts@[i as int].name@ == name@);
            }
            return Ok(entry.config);
        }
        i = i + 1;
    }
    Err(ConfigError::NotFound)
}

} // verus!
