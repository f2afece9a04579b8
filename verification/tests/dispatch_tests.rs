use homie_bridge::dispatch::{
    complete_update, format_value, parse_value, resolve_update, DispatchError, ExecOutcome,
    PropertyValue, UpdateRequest, UpdateResult,
};
use homie_bridge::registry::{build, Registry};
use homie_bridge::schema::{
    Datatype, DeviceConfig, DeviceEntry, HostConfig, PropertyConfig, PropertyEntry,
};

fn property(id: &str, settable: bool, retained: bool, command: &[&str]) -> PropertyEntry {
    PropertyEntry {
        id: id.to_string(),
        config: PropertyConfig {
            datatype: Datatype::Boolean,
            settable,
            retained,
            run_command: command.iter().map(|s| s.to_string()).collect(),
        },
    }
}

fn light_registry() -> Registry {
    let host = HostConfig {
        devices: vec![DeviceEntry {
            id: "light".to_string(),
            config: DeviceConfig {
                properties: vec![property("power", true, true, &["/bin/true"])],
            },
        }],
    };
    build(host).unwrap()
}

fn request(device: &str, prop: &str, raw: &str) -> UpdateRequest {
    UpdateRequest {
        device_id: device.to_string(),
        property_id: prop.to_string(),
        raw_value: raw.to_string(),
    }
}

#[test]
fn settable_boolean_update_yields_the_configured_command_once() {
    let reg = light_registry();
    let plan = resolve_update(&request("light", "power", "true"), &reg).unwrap();
    assert_eq!(*plan.command, vec!["/bin/true".to_string()]);
    assert!(plan.retained);
    assert_eq!(plan.value, PropertyValue::Boolean(true));
    let result = complete_update(plan.value, ExecOutcome::Completed { success: true });
    assert_eq!(result, UpdateResult::Ack("true".to_string()));
}

#[test]
fn unparsable_value_is_rejected_without_any_command() {
    let reg = light_registry();
    let r = resolve_update(&request("light", "power", "notabool"), &reg);
    match r {
        Err(e) => assert_eq!(e, DispatchError::InvalidValue),
        Ok(_) => panic!("an unparsable value must yield no command plan"),
    }
}

#[test]
fn unknown_device_is_rejected_without_any_command() {
    // However many valid properties the registry holds, a request for an
    // undeclared device selects none of their commands.
    let host = HostConfig {
        devices: vec![
            DeviceEntry {
                id: "light".to_string(),
                config: DeviceConfig {
                    properties: vec![
                        property("power", true, true, &["/bin/true"]),
                        property("color", true, true, &["/bin/true"]),
                    ],
                },
            },
            DeviceEntry {
                id: "fan".to_string(),
                config: DeviceConfig {
                    properties: vec![property("power", true, true, &["/bin/true"])],
                },
            },
        ],
    };
    let reg = build(host).unwrap();
    let r = resolve_update(&request("missing", "power", "true"), &reg);
    match r {
        Err(e) => assert_eq!(e, DispatchError::UnknownTarget),
        Ok(_) => panic!("an unknown device must yield no command plan"),
    }
}

#[test]
fn unknown_property_is_rejected_without_any_command() {
    let reg = light_registry();
    let r = resolve_update(&request("light", "missing", "true"), &reg);
    match r {
        Err(e) => assert_eq!(e, DispatchError::UnknownTarget),
        Ok(_) => panic!("an unknown property must yield no command plan"),
    }
}

#[test]
fn unsettable_property_is_rejected_without_any_command() {
    let host = HostConfig {
        devices: vec![DeviceEntry {
            id: "light".to_string(),
            config: DeviceConfig {
                properties: vec![property("power", false, true, &["/bin/true"])],
            },
        }],
    };
    let reg = build(host).unwrap();
    let r = resolve_update(&request("light", "power", "true"), &reg);
    match r {
        Err(e) => assert_eq!(e, DispatchError::NotSettable),
        Ok(_) => panic!("an unsettable property must yield no command plan"),
    }
}

#[test]
fn parse_value_accepts_exactly_the_canonical_booleans() {
    assert_eq!(
        parse_value(Datatype::Boolean, &"true".to_string()),
        Some(PropertyValue::Boolean(true))
    );
    assert_eq!(
        parse_value(Datatype::Boolean, &"false".to_string()),
        Some(PropertyValue::Boolean(false))
    );
    assert_eq!(parse_value(Datatype::Boolean, &"True".to_string()), None);
    assert_eq!(parse_value(Datatype::Boolean, &"1".to_string()), None);
    assert_eq!(parse_value(Datatype::Boolean, &"".to_string()), None);
}

#[test]
fn format_value_is_the_canonical_text() {
    assert_eq!(format_value(PropertyValue::Boolean(true)), "true");
    assert_eq!(format_value(PropertyValue::Boolean(false)), "false");
}

#[test]
fn failed_launch_reports_its_cause() {
    let r = complete_update(
        PropertyValue::Boolean(true),
        ExecOutcome::LaunchFailed("no such file".to_string()),
    );
    assert_eq!(
        r,
        UpdateResult::Failed(DispatchError::ExecutionFailed("no such file".to_string()))
    );
}

#[test]
fn nonzero_exit_is_an_execution_failure() {
    let r = complete_update(
        PropertyValue::Boolean(true),
        ExecOutcome::Completed { success: false },
    );
    assert_eq!(
        r,
        UpdateResult::Failed(DispatchError::ExecutionFailed(
            "command exited with nonzero status".to_string()
        ))
    );
}

#[test]
fn timeout_is_reported_as_timeout() {
    let r = complete_update(PropertyValue::Boolean(false), ExecOutcome::TimedOut);
    assert_eq!(r, UpdateResult::Failed(DispatchError::Timeout));
}
