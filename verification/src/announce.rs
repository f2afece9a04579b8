//! The announcement planner: derives, from the registry, the exact
//! sequence of discovery declarations to publish.
//!
//! The plan is deterministic and equals declaration order: each device's
//! declaration is followed immediately by one declaration per property of
//! that device, devices in registry order, properties in registry order.
//! The unverified binary walks the plan and emits each declaration on the
//! transport; every declaration must be emitted before the system signals
//! readiness.

use vstd::prelude::*;
use crate::registry::Registry;
use crate::schema::{Datatype, DeviceEntry, PropertyEntry};

verus! {

/// One discovery declaration to publish.
#[derive(Debug, PartialEq)]
pub enum Announcement {
    /// Declares a device: its id and its human label. The label repeats
    /// the id, as the schema carries no separate label.
    Device { device_id: String, label: String },
    /// Declares one property of a device: its datatype, whether remote
    /// controllers may set it, and whether its value is retained.
    Property {
        device_id: String,
        property_id: String,
        datatype: Datatype,
        settable: bool,
        retained: bool,
    },
}

/// The declaration announcing one device.
pub open spec fn device_announcement(d: DeviceEntry) -> Announcement {
    Announcement::Device { device_id: d.id, label: d.id }
}

/// The declaration announcing one property of the device with id `dev_id`.
pub open spec fn property_announcement(dev_id: String, p: PropertyEntry) -> Announcement {
    Announcement::Property {
        device_id: dev_id,
        property_id: p.id,
        datatype: p.config.datatype,
        settable: p.config.settable,
        retained: p.config.retained,
    }
}

/// The property declarations of one device, in declaration order.
pub open spec fn properties_plan(dev_id: String, props: Seq<PropertyEntry>) -> Seq<Announcement>
    decreases props.len(),
{
    if props.len() == 0 {
        Seq::empty()
    } else {
        properties_plan(dev_id, props.drop_last()) + seq![
            property_announcement(dev_id, props.last()),
        ]
    }
}

/// The full announcement block of one device: the device declaration,
/// then its property declarations in declaration order.
pub open spec fn device_block(d: DeviceEntry) -> Seq<Announcement> {
    seq![device_announcement(d)] + properties_plan(d.id, d.config.properties@)
}

/// The whole announcement plan: each device's block, in declaration order.
pub open spec fn announcement_plan_spec(devs: Seq<DeviceEntry>) -> Seq<Announcement>
    decreases devs.len(),
{
    if devs.len() == 0 {
        Seq::empty()
    } else {
        announcement_plan_spec(devs.drop_last()) + device_block(devs.last())
    }
}

/// Computes the announcement plan of a registry.
///
/// The result is exactly [`announcement_plan_spec`] of the registry's
/// devices: deterministic, and in declaration order.
pub fn announcement_plan(reg: &Registry) -> (r: Vec<Announcement>)
    ensures
        r@ == announcement_plan_spec(reg.devices@),
{
    let mut out: Vec<Announcement> = Vec::new();
    let mut i: usize = 0;
    #[verifier::loop_isolation(false)]
    while i < reg.devices.len()
        invariant
            0 <= i <= reg.devices@.len(),
            out@ == announcement_plan_spec(reg.devices@.take(i as int)),
        decreases reg.devices@.len() - i,
    {
        let d = &reg.devices[i];
        out.push(Announcement::Device { device_id: d.id.clone(), label: d.id.clone() });
        let mut j: usize = 0;
        #[verifier::loop_isolation(false)]
        while j < d.config.properties.len()
            invariant
                0 <= j <= d.config.properties@.len(),
                out@ == announcement_plan_spec(reg.devices@.take(i as int)) + seq![
                    device_announcement(*d),
                ] + properties_plan(d.id, d.config.properties@.take(j as int)),
            decreases d.config.properties@.len() - j,
        {
            let p = &d.config.properties[j];
            out.push(
                Announcement::Property {
                    device_id: d.id.clone(),
                    property_id: p.id.clone(),
                    datatype: p.config.datatype,
                    settable: p.config.settable,
                    retained: p.config.retained,
                },
            );
            proof {
                let props = d.config.properties@;
                assert(props.take(j as int + 1).drop_last() =~= props.take(j as int));
                assert(props.take(j as int + 1).last() == props[j as int]);
                assert(out@ =~= announcement_plan_spec(reg.devices@.take(i as int)) + seq![
                    device_announcement(*d),
                ] + properties_plan(d.id, props.take(j as int + 1)));
            }
            j = j + 1;
        }
        proof {
            let props = d.config.properties@;
            assert(props.take(props.len() as int) =~= props);
            assert(out@ == announcement_plan_spec(reg.devices@.take(i as int)) + seq![
                device_announcement(*d),
            ] + properties_plan(d.id, props));
            assert(seq![device_announcement(*d)] + properties_plan(d.id, props) =~= device_block(
                *d,
            ));
            assert(reg.devices@.take(i as int + 1).drop_last() =~= reg.devices@.take(i as int));
            assert(reg.devices@.take(i as int + 1).last() == reg.devices@[i as int]);
            assert(announcement_plan_spec(reg.devices@.take(i as int + 1))
                == announcement_plan_spec(reg.devices@.take(i as int)) + device_block(
                reg.devices@[i as int],
            ));
            assert(out@ =~= announcement_plan_spec(reg.devices@.take(i as int + 1)));
        }
        i = i + 1;
    }
    proof {
        assert(reg.devices@.take(reg.devices@.len() as int) =~= reg.devices@);
    }
    out
}

/// Announcement order is deterministic and equals declaration order: for
/// a registry declaring devices `[A, B]`, each with properties `[x, y]`,
/// the plan is exactly `A, A.x, A.y, B, B.x, B.y`, whatever the ids are.
pub proof fn lemma_announcement_declaration_order(devs: Seq<DeviceEntry>)
    requires
        devs.len() == 2,
        devs[0].config.properties@.len() == 2,
        devs[1].config.properties@.len() == 2,
    ensures
        announcement_plan_spec(devs) == seq![
            device_announcement(devs[0]),
            property_announcement(devs[0].id, devs[0].config.properties@[0]),
            property_announcement(devs[0].id, devs[0].config.properties@[1]),
            device_announcement(devs[1]),
            property_announcement(devs[1].id, devs[1].config.properties@[0]),
            property_announcement(devs[1].id, devs[1].config.properties@[1]),
        ],
{
    reveal_with_fuel(announcement_plan_spec, 3);
    lemma_device_block_two(devs[0]);
    lemma_device_block_two(devs[1]);
    assert(devs.drop_last().drop_last() =~= Seq::<DeviceEntry>::empty());
    assert(devs.drop_last().last() == devs[0]);
    assert(devs.last() == devs[1]);
    assert(announcement_plan_spec(devs.drop_last()) =~= device_block(devs[0]));
    assert(announcement_plan_spec(devs) =~= device_block(devs[0]) + device_block(devs[1]));
    assert(announcement_plan_spec(devs) =~= seq![
        device_announcement(devs[0]),
        property_announcement(devs[0].id, devs[0].config.properties@[0]),
        property_announcement(devs[0].id, devs[0].config.properties@[1]),
        device_announcement(devs[1]),
        property_announcement(devs[1].id, devs[1].config.properties@[0]),
        property_announcement(devs[1].id, devs[1].config.properties@[1]),
    ]);
}

/// The announcement block of a device with exactly two properties: the
/// device declaration, then the two property declarations in order.
proof fn lemma_device_block_two(d: DeviceEntry)
    requires
        d.config.properties@.len() == 2,
    ensures
        device_block(d) == seq![
            device_announcement(d),
            property_announcement(d.id, d.config.properties@[0]),
            property_announcement(d.id, d.config.properties@[1]),
        ],
{
    reveal_with_fuel(properties_plan, 3);
    let props = d.config.properties@;
    assert(props.drop_last().drop_last() =~= Seq::<PropertyEntry>::empty());
    assert(props.drop_last().last() == props[0]);
    assert(props.last() == props[1]);
    assert(properties_plan(d.id, props.drop_last()) =~= seq![
        property_announcement(d.id, props[0]),
    ]);
    assert(properties_plan(d.id, props) =~= seq![
        property_announcement(d.id, props[0]),
        property_announcement(d.id, props[1]),
    ]);
    assert(device_block(d) =~= seq![
        device_announcement(d),
        property_announcement(d.id, props[0]),
        property_announcement(d.id, props[1]),
    ]);
}

/// The discovery protocol's type token for each datatype.
pub open spec fn datatype_token_spec(datatype: Datatype) -> Seq<char> {
    match datatype {
        Datatype::Boolean => "boolean"@,
    }
}

/// Maps a datatype onto the discovery protocol's required representation:
/// its type token.
pub fn datatype_token(datatype: Datatype) -> (r: String)
    ensures
        r@ == datatype_token_spec(datatype),
{
    match datatype {
        Datatype::Boolean => String::from_str("boolean"),
    }
}

/// The base topic under which one host's devices are announced.
pub fn device_base_topic(host: &String) -> (r: String)
    ensures
        r@ == "homie/"@ + host@,
{
    let mut t = String::from_str("homie/");
    t.append(host.as_str());
    t
}

} // verus!
