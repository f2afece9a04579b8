//! The registry builder: validates a host's schema and materializes it
//! into an addressable, immutable view keyed by (device id, property id).
//!
//! The registry keeps the declaration order of devices and properties, so
//! that the discovery announcements derived from it are deterministic.

use vstd::prelude::*;
use crate::schema::{ConfigError, DeviceEntry, HostConfig, PropertyConfig, PropertyEntry};

verus! {

/// Whether the device ids of a sequence of devices are pairwise distinct.
pub open spec fn device_ids_unique(devs: Seq<DeviceEntry>) -> bool {
    forall|i: int, j: int|
        0 <= i < j < devs.len() ==> devs[i].id@ != devs[j].id@
}

/// Whether the property ids of a sequence of properties are pairwise
/// distinct.
pub open spec fn property_ids_unique(props: Seq<PropertyEntry>) -> bool {
    forall|i: int, j: int|
        0 <= i < j < props.len() ==> props[i].id@ != props[j].id@
}

/// Whether every property of a sequence carries a non-empty command.
pub open spec fn commands_nonempty(props: Seq<PropertyEntry>) -> bool {
    forall|i: int| 0 <= i < props.len() ==> props[i].config.run_command@.len() >= 1
}

impl HostConfig {
    /// Whether every addressing key of this host is unique: device ids
    /// within the host, and property ids within each device.
    pub open spec fn ids_unique(self) -> bool {
        &&& device_ids_unique(self.devices@)
        &&& forall|i: int|
            0 <= i < self.devices@.len() ==> property_ids_unique(
                #[trigger] self.devices@[i].config.properties@,
            )
    }

    /// Whether every property of this host carries a non-empty command.
    pub open spec fn all_commands_nonempty(self) -> bool {
        forall|i: int|
            0 <= i < self.devices@.len() ==> commands_nonempty(
                #[trigger] self.devices@[i].config.properties@,
            )
    }
}

/// The registry: a validated host schema, shared read-only across all
/// concurrent dispatches. Built once by [`build`], never mutated.
pub struct Registry {
    pub devices: Vec<DeviceEntry>,
}

impl Registry {
    /// Well-formedness: all addressing keys unique, all commands
    /// non-empty. [`build`] establishes this; nothing ever mutates a
    /// registry afterwards.
    pub open spec fn wf(self) -> bool {
        &&& device_ids_unique(self.devices@)
        &&& forall|i: int|
            0 <= i < self.devices@.len() ==> property_ids_unique(
                #[trigger] self.devices@[i].config.properties@,
            )
        &&& forall|i: int|
            0 <= i < self.devices@.len() ==> commands_nonempty(
                #[trigger] self.devices@[i].config.properties@,
            )
    }

    /// Whether some device of this registry bears the given id.
    pub open spec fn has_device(self, dev: Seq<char>) -> bool {
        exists|i: int| 0 <= i < self.devices@.len() && self.devices@[i].id@ == dev
    }

    /// The index of the device with the given id (meaningful only when
    /// `has_device` holds; unique when the registry is well-formed).
    pub open spec fn device_index(self, dev: Seq<char>) -> int {
        choose|i: int| 0 <= i < self.devices@.len() && self.devices@[i].id@ == dev
    }

    /// Whether the registry holds the addressing key (dev, prop).
    pub open spec fn has_property(self, dev: Seq<char>, prop: Seq<char>) -> bool {
        &&& self.has_device(dev)
        &&& exists|j: int|
            0 <= j < self.devices@[self.device_index(dev)].config.properties@.len()
                && self.devices@[self.device_index(dev)].config.properties@[j].id@ == prop
    }

    /// The index, within its device, of the property with the given id.
    pub open spec fn property_index(self, dev: Seq<char>, prop: Seq<char>) -> int {
        choose|j: int|
            0 <= j < self.devices@[self.device_index(dev)].config.properties@.len()
                && self.devices@[self.device_index(dev)].config.properties@[j].id@ == prop
    }

    /// The configuration of the property addressed by (dev, prop)
    /// (meaningful only when `has_property` holds).
    pub open spec fn property_at(self, dev: Seq<char>, prop: Seq<char>) -> PropertyConfig {
        self.devices@[self.device_index(dev)].config.properties@[self.property_index(
            dev,
            prop,
        )].config
    }
}

impl Registry {
    /// Resolves the addressing key (device id, property id) to the
    /// configuration of the property it names, or `None` when no device or
    /// no property of that id is declared.
    pub fn lookup<'a>(&'a self, device_id: &String, property_id: &String) -> (r: Option<
        &'a PropertyConfig,
    >)
        requires
            self.wf(),
        ensures
            r is Some <==> self.has_property(device_id@, property_id@),
            r matches Some(p) ==> *p == self.property_at(device_id@, property_id@),
    {
        let mut i: usize = 0;
        #[verifier::loop_isolation(false)]
        while i < self.devices.len()
            invariant
                forall|a: int| 0 <= a < i ==> self.devices@[a].id@ != device_id@,
            decreases self.devices@.len() - i,
        {
            if self.devices[i].id == *device_id {
                proof {
                    assert(self.has_device(device_id@));
                    let k = self.device_index(device_id@);
                    if k != i {
                        assert(self.devices@[k].id@ == self.devices@[i as int].id@);
                        assert(false);
                    }
                }
                let props = &self.devices[i].config.properties;
                let mut j: usize = 0;
                #[verifier::loop_isolation(false)]
                while j < props.len()
                    invariant
                        self.device_index(device_id@) == i as int,
                        props@ == self.devices@[i as int].config.properties@,
                        forall|b: int| 0 <= b < j ==> props@[b].id@ != property_id@,
                    decreases props@.len() - j,
                {
                    if props[j].id == *property_id {
                        proof {
                            assert(self.has_property(device_id@, property_id@));
                            let m = self.property_index(device_id@, property_id@);
                            if m != j {
                                assert(props@[m].id@ == props@[j as int].id@);
                                assert(false);
                            }
                        }
                        return Some(&props[j].config);
                    }
                    j = j + 1;
                }
                return None;
            }
            i = i + 1;
        }
        None
    }
}

/// Reports whether the device ids of `devs` are pairwise distinct.
fn check_device_ids_unique(devs: &Vec<DeviceEntry>) -> (r: bool)
    ensures
        r == device_ids_unique(devs@),
{
    let mut i: usize = 0;
    #[verifier::loop_isolation(false)]
    while i < devs.len()
        invariant
            forall|a: int, b: int|
                0 <= a < b < devs@.len() && a < i ==> devs@[a].id@ != devs@[b].id@,
        decreases devs@.len() - i,
    {
        let mut j: usize = i + 1;
        #[verifier::loop_isolation(false)]
        while j < devs.len()
            invariant
                i < j <= devs@.len() || j == i + 1,
                forall|b: int| i < b < j ==> devs@[i as int].id@ != devs@[b].id@,
            decreases devs@.len() - j,
        {
            if devs[i].id == devs[j].id {
                return false;
            }
            j = j + 1;
        }
        i = i + 1;
    }
    true
}

/// Reports whether the property ids of `props` are pairwise distinct.
fn check_property_ids_unique(props: &Vec<PropertyEntry>) -> (r: bool)
    ensures
        r == property_ids_unique(props@),
{
    let mut i: usize = 0;
    #[verifier::loop_isolation(false)]
    while i < props.len()
        invariant
            forall|a: int, b: int|
                0 <= a < b < props@.len() && a < i ==> props@[a].id@ != props@[b].id@,
        decreases props@.len() - i,
    {
        let mut j: usize = i + 1;
        #[verifier::loop_isolation(false)]
        while j < props.len()
            invariant
                i < j <= props@.len() || j == i + 1,
                forall|b: int| i < b < j ==> props@[i as int].id@ != props@[b].id@,
            decreases props@.len() - j,
        {
            if props[i].id == props[j].id {
                return false;
            }
            j = j + 1;
        }
        i = i + 1;
    }
    true
}

/// Reports whether every property of `props` carries a non-empty command.
fn check_commands_nonempty(props: &Vec<PropertyEntry>) -> (r: bool)
    ensures
        r == commands_nonempty(props@),
{
    let mut i: usize = 0;
    #[verifier::loop_isolation(false)]
    while i < props.len()
        invariant
            forall|a: int| 0 <= a < i ==> props@[a].config.run_command@.len() >= 1,
        decreases props@.len() - i,
    {
        if props[i].config.run_command.len() == 0 {
            return false;
        }
        i = i + 1;
    }
    true
}

/// Builds the registry for one host, consuming the host configuration.
///
/// Rejects the host with `ConfigError::DuplicateId` when any device id, or
/// any (device id, property id) pair, occurs twice: ids are the addressing
/// key and must be unique. Rejects it with `ConfigError::Malformed` when a
/// property's command is empty, since dispatch would be impossible for that
/// property. Otherwise the registry holds exactly the input's devices, in
/// declaration order.
pub fn build(host: HostConfig) -> (r: Result<Registry, ConfigError>)
    ensures
        r is Ok <==> host.ids_unique() && host.all_commands_nonempty(),
        r matches Ok(reg) ==> reg.devices == host.devices && reg.wf(),
        r matches Err(e) ==> ((e is DuplicateId) <==> !host.ids_unique()) && ((e is Malformed)
            <==> host.ids_unique()),
{
    if !check_device_ids_unique(&host.devices) {
        return Err(ConfigError::DuplicateId);
    }
    let mut i: usize = 0;
    #[verifier::loop_isolation(false)]
    while i < host.devices.len()
        invariant
            forall|a: int|
                0 <= a < i ==> property_ids_unique(
                    #[trigger] host.devices@[a].config.properties@,
                ),
        decreases host.devices@.len() - i,
    {
        if !check_property_ids_unique(&host.devices[i].config.properties) {
            return Err(ConfigError::DuplicateId);
        }
        i = i + 1;
    }
    let mut k: usize = 0;
    #[verifier::loop_isolation(false)]
    while k < host.devices.len()
        invariant
            forall|a: int|
                0 <= a < k ==> commands_nonempty(#[trigger] host.devices@[a].config.properties@),
        decreases host.devices@.len() - k,
    {
        if !check_commands_nonempty(&host.devices[k].config.properties) {
            return Err(ConfigError::Malformed);
        }
        k = k + 1;
    }
    Ok(Registry { devices: host.devices })
}

} // verus!
