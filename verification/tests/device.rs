use interflow::device::Channel;
use interflow::device::DeviceType;

#[test]
fn flag_bits() {
    assert_eq!(1, DeviceType::INPUT().bits());
    assert_eq!(2, DeviceType::OUTPUT().bits());
    assert_eq!(4, DeviceType::PHYSICAL().bits());
    assert_eq!(8, DeviceType::APPLICATION().bits());
    assert_eq!(16, DeviceType::DEFAULT().bits());
    assert_eq!(3, DeviceType::DUPLEX().bits());
    assert_eq!(0, DeviceType::empty().bits());
    assert_eq!(31, DeviceType::all().bits());
}

#[test]
fn duplex_is_input_and_output() {
    let t = DeviceType::INPUT().union(DeviceType::OUTPUT());
    assert_eq!(DeviceType::DUPLEX(), t);
    assert!(t.is_duplex());
    assert!(t.is_input());
    assert!(t.is_output());
    assert!(!DeviceType::INPUT().is_duplex());
    assert!(!DeviceType::OUTPUT().is_duplex());
}

#[test]
fn predicates() {
    let t = DeviceType::PHYSICAL().union(DeviceType::INPUT()).union(DeviceType::DEFAULT());
    assert!(t.is_input());
    assert!(!t.is_output());
    assert!(t.is_physical());
    assert!(!t.is_application());
    assert!(t.is_default());
    assert!(!t.is_duplex());
    assert!(DeviceType::APPLICATION().is_application());
}

#[test]
fn contains_and_intersects() {
    let t = DeviceType::DUPLEX();
    assert!(t.contains(DeviceType::INPUT()));
    assert!(t.contains(DeviceType::empty()));
    assert!(!DeviceType::INPUT().contains(t));
    assert!(DeviceType::INPUT().intersects(t));
    assert!(!DeviceType::INPUT().intersects(DeviceType::OUTPUT()));
    assert_eq!(DeviceType::INPUT(), t.intersection(DeviceType::INPUT()));
}

#[test]
fn set_insert_remove() {
    let mut t = DeviceType::empty();
    t.set(DeviceType::INPUT(), true);
    t.set(DeviceType::OUTPUT(), false);
    t.set(DeviceType::DEFAULT(), true);
    assert_eq!(17, t.bits());
    t.insert(DeviceType::OUTPUT());
    assert!(t.is_duplex());
    t.remove(DeviceType::DUPLEX());
    assert_eq!(DeviceType::DEFAULT(), t);
    assert!(!t.is_empty());
    t.set(DeviceType::DEFAULT(), false);
    assert!(t.is_empty());
}

#[test]
fn from_bits_variants() {
    assert_eq!(Some(DeviceType::DUPLEX()), DeviceType::from_bits(3));
    assert_eq!(None, DeviceType::from_bits(32));
    assert_eq!(DeviceType::INPUT(), DeviceType::from_bits_truncate(33));
    assert_eq!(33, DeviceType::from_bits_retain(33).bits());
}

#[test]
fn channel_fields() {
    let c = Channel { index: 3, name: "Channel 3".to_string() };
    let d = c.clone();
    assert_eq!(3, d.index);
    assert_eq!("Channel 3", d.name);
}
