use homie_bridge::inflight::InflightGuard;

#[test]
fn second_acquire_for_same_property_is_refused_until_release() {
    let mut guard = InflightGuard::new();
    let dev = "light".to_string();
    let prop = "power".to_string();
    assert!(guard.try_acquire(&dev, &prop));
    assert!(!guard.try_acquire(&dev, &prop));
    assert!(!guard.try_acquire(&dev, &prop));
    guard.release(&dev, &prop);
    assert!(guard.try_acquire(&dev, &prop));
}

#[test]
fn different_properties_are_independent() {
    let mut guard = InflightGuard::new();
    let dev = "light".to_string();
    assert!(guard.try_acquire(&dev, &"power".to_string()));
    assert!(guard.try_acquire(&dev, &"color".to_string()));
    assert!(guard.try_acquire(&"fan".to_string(), &"power".to_string()));
    assert!(!guard.try_acquire(&dev, &"power".to_string()));
    guard.release(&dev, &"power".to_string());
    assert!(!guard.try_acquire(&dev, &"color".to_string()));
    assert!(guard.try_acquire(&dev, &"power".to_string()));
}

#[test]
fn releasing_an_unheld_key_changes_nothing() {
    let mut guard = InflightGuard::new();
    let dev = "light".to_string();
    let prop = "power".to_string();
    guard.release(&dev, &prop);
    assert!(guard.try_acquire(&dev, &prop));
    guard.release(&"other".to_string(), &prop);
    assert!(!guard.try_acquire(&dev, &prop));
}

#[test]
fn is_held_reflects_the_permit() {
    let mut guard = InflightGuard::new();
    let dev = "light".to_string();
    let prop = "power".to_string();
    assert!(!guard.is_held(&dev, &prop));
    assert!(guard.try_acquire(&dev, &prop));
    assert!(guard.is_held(&dev, &prop));
    guard.release(&dev, &prop);
    assert!(!guard.is_held(&dev, &prop));
}
