use nutune::device::{generate_device_uuid, BlockDevice, Device, DeviceDetector, UnmountedDevice};

#[test]
fn test_generate_device_uuid() {
    let uuid1 = generate_device_uuid(Some("FIIO"), 64424509440, "exfat");
    let uuid2 = generate_device_uuid(Some("FIIO"), 64424509440, "exfat");
    let uuid3 = generate_device_uuid(Some("OTHER"), 64424509440, "exfat");

    assert_eq!(uuid1, uuid2);
    assert_eq!(uuid1.len(), 12);
    assert_ne!(uuid1, uuid3);
}

#[test]
fn test_generate_uuid_no_label() {
    let uuid = generate_device_uuid(None, 32000000000, "vfat");
    assert_eq!(uuid.len(), 12);
}

#[test]
fn device_uuid_known_values() {
    assert_eq!(generate_device_uuid(Some("FIIO"), 64424509440, "exfat"), "0ce912fde082");
    assert_eq!(generate_device_uuid(None, 32000000000, "vfat"), "715b3607c108");
}

#[test]
fn device_uuid_is_sha256_prefix_in_hex() {
    let uuid = generate_device_uuid(None, 0, "");
    assert!(uuid.chars().all(|c| c.is_ascii_hexdigit() && !c.is_ascii_uppercase()));
    assert_eq!(uuid, generate_device_uuid(Some(""), 0, ""));
    assert_ne!(uuid, generate_device_uuid(None, 1, ""));
}

fn device(friendly: Option<&str>, label: Option<&str>, uuid: &str) -> Device {
    Device {
        name: "sdb1".to_string(),
        label: label.map(|s| s.to_string()),
        mount_point: "/run/media/u/FIIO".to_string(),
        size: 10,
        free_space: 5,
        fs_type: "exfat".to_string(),
        uuid: uuid.to_string(),
        friendly_name: friendly.map(|s| s.to_string()),
    }
}

#[test]
fn display_name_prefers_friendly_then_label_then_uuid() {
    assert_eq!(device(Some("Mine"), Some("FIIO"), "0123456789ab").display_name(), "Mine");
    assert_eq!(device(None, Some("FIIO"), "0123456789ab").display_name(), "FIIO");
    assert_eq!(device(None, None, "0123456789ab").display_name(), "01234567");
    assert_eq!(device(None, None, "abc").display_name(), "abc");
}

fn block(name: &str, mountpoint: Option<&str>, fstype: Option<&str>, hotplug: Option<bool>) -> BlockDevice {
    BlockDevice {
        name: name.to_string(),
        label: None,
        mountpoint: mountpoint.map(|s| s.to_string()),
        size: Some(100),
        fstype: fstype.map(|s| s.to_string()),
        hotplug,
        fsavail: None,
        fssize: None,
        children: None,
    }
}

#[test]
fn collect_unmounted_walks_children_in_order() {
    let mut disk = block("sdb", None, None, Some(true));
    let p1 = block("sdb1", None, Some("vfat"), Some(true));
    let p2 = block("sdb2", Some("/run/media/u/X"), Some("exfat"), Some(true));
    let p3 = block("sdb3", None, Some("ext4"), Some(false));
    let p4 = block("sdb4", None, Some("exfat"), Some(true));
    disk.children = Some(vec![p1, p2, p3, p4]);
    let mut found: Vec<UnmountedDevice> = Vec::new();
    DeviceDetector::collect_unmounted(&disk, &mut found);
    let names: Vec<&str> = found.iter().map(|d| d.name.as_str()).collect();
    assert_eq!(names, vec!["sdb1", "sdb4"]);
    assert_eq!(found[0].fs_type, "vfat");
    assert_eq!(found[0].size, 100);
}

#[test]
fn removable_mounts() {
    assert!(DeviceDetector::is_removable_mount(&block("a", Some("/run/media/u/X"), None, Some(false))));
    assert!(DeviceDetector::is_removable_mount(&block("b", Some("/home"), None, Some(true))));
    assert!(DeviceDetector::is_removable_mount(&block("c", Some("/mnt/usb"), None, Some(false))));
    assert!(!DeviceDetector::is_removable_mount(&block("d", Some("/home"), None, Some(false))));
    assert!(!DeviceDetector::is_removable_mount(&block("e", Some("/boot/efi"), None, Some(true))));
    assert!(!DeviceDetector::is_removable_mount(&block("f", Some("[SWAP]"), None, Some(true))));
    assert!(!DeviceDetector::is_removable_mount(&block("g", Some(""), None, Some(true))));
    assert!(!DeviceDetector::is_removable_mount(&block("h", Some("/media/x"), None, None)));
    assert!(!DeviceDetector::is_removable_mount(&block("i", None, None, Some(true))));
}

#[test]
fn block_size_falls_back_to_filesystem_size() {
    let mut b = block("a", None, None, None);
    assert_eq!(DeviceDetector::block_size(&b), 100);
    b.size = None;
    b.fssize = Some(7);
    assert_eq!(DeviceDetector::block_size(&b), 7);
    b.fssize = None;
    assert_eq!(DeviceDetector::block_size(&b), 0);
}
