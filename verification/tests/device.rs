use std::cmp::Ordering;
use std::collections::hash_map::DefaultHasher;
use std::hash::Hash;
use std::hash::Hasher;

use mygpoclient::device::Device;
use mygpoclient::device::DeviceType;

#[test]
fn equal_device_means_equal_hash() {
    let device1 = Device {
        id: String::from("abcdef"),
        caption: String::from("gPodder on my Lappy"),
        device_type: DeviceType::Laptop,
        subscriptions: 27,
    };
    let device2 = Device {
        id: String::from("abcdef"),
        caption: String::from("unnamed"),
        device_type: DeviceType::Other,
        subscriptions: 1,
    };

    assert_eq!(device1, device2);
    assert_eq!(device1.partial_cmp(&device2), Some(Ordering::Equal));

    let mut hasher1 = DefaultHasher::new();
    device1.hash(&mut hasher1);

    let mut hasher2 = DefaultHasher::new();
    device2.hash(&mut hasher2);

    assert_eq!(hasher1.finish(), hasher2.finish());
}

#[test]
fn not_equal_devices_have_non_equal_ordering() {
    let device1 = Device {
        id: String::from("abcdef"),
        caption: String::from("gPodder on my Lappy"),
        device_type: DeviceType::Laptop,
        subscriptions: 27,
    };
    let device2 = Device {
        id: String::from("phone-au90f923023.203f9j23f"),
        caption: String::from("My Phone"),
        device_type: DeviceType::Mobile,
        subscriptions: 5,
    };

    assert_ne!(device1, device2);
    assert_eq!(device1.partial_cmp(&device2), Some(Ordering::Less));

    let mut hasher1 = DefaultHasher::new();
    device1.hash(&mut hasher1);

    let mut hasher2 = DefaultHasher::new();
    device2.hash(&mut hasher2);

    assert_ne!(hasher1.finish(), hasher2.finish());
}

#[test]
fn device_display() {
    let device = Device {
        id: String::from("abcdef"),
        caption: String::from("gPodder on my Lappy"),
        device_type: DeviceType::Laptop,
        subscriptions: 27,
    };

    assert_eq!(
        "Laptop gPodder on my Lappy (id=abcdef)".to_owned(),
        device.display_string()
    );
}
