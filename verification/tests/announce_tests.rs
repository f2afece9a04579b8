use homie_bridge::announce::{announcement_plan, datatype_token, device_base_topic, Announcement};
use homie_bridge::registry::build;
use homie_bridge::schema::{
    Datatype, DeviceConfig, DeviceEntry, HostConfig, PropertyConfig, PropertyEntry,
};

fn property(id: &str, settable: bool, retained: bool) -> PropertyEntry {
    PropertyEntry {
        id: id.to_string(),
        config: PropertyConfig {
            datatype: Datatype::Boolean,
            settable,
            retained,
            run_command: vec!["/bin/true".to_string()],
        },
    }
}

fn device(id: &str, properties: Vec<PropertyEntry>) -> DeviceEntry {
    DeviceEntry {
        id: id.to_string(),
        config: DeviceConfig { properties },
    }
}

#[test]
fn announcement_order_equals_declaration_order() {
    let host = HostConfig {
        devices: vec![
            device("a", vec![property("x", true, true), property("y", false, false)]),
            device("b", vec![property("x", true, false), property("y", false, true)]),
        ],
    };
    let reg = build(host).unwrap();
    let plan = announcement_plan(&reg);
    assert_eq!(
        plan,
        vec![
            Announcement::Device { device_id: "a".to_string(), label: "a".to_string() },
            Announcement::Property {
                device_id: "a".to_string(),
                property_id: "x".to_string(),
                datatype: Datatype::Boolean,
                settable: true,
                retained: true,
            },
            Announcement::Property {
                device_id: "a".to_string(),
                property_id: "y".to_string(),
                datatype: Datatype::Boolean,
                settable: false,
                retained: false,
            },
            Announcement::Device { device_id: "b".to_string(), label: "b".to_string() },
            Announcement::Property {
                device_id: "b".to_string(),
                property_id: "x".to_string(),
                datatype: Datatype::Boolean,
                settable: true,
                retained: false,
            },
            Announcement::Property {
                device_id: "b".to_string(),
                property_id: "y".to_string(),
                datatype: Datatype::Boolean,
                settable: false,
                retained: true,
            },
        ]
    );
}

#[test]
fn announcement_plan_of_empty_registry_is_empty() {
    let reg = build(HostConfig { devices: vec![] }).unwrap();
    assert!(announcement_plan(&reg).is_empty());
}

#[test]
fn base_topic_prefixes_the_host_name() {
    assert_eq!(device_base_topic(&"h1".to_string()), "homie/h1");
}

#[test]
fn boolean_maps_to_the_protocol_type_token() {
    assert_eq!(datatype_token(Datatype::Boolean), "boolean");
}
