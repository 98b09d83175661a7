use cult::{DevId, DeviceCollection, DeviceRecord, DeviceState, DeviceType, Error};

fn record(devid: usize, name: &str, device_type: i32) -> DeviceRecord {
    DeviceRecord {
        devid,
        device_id: format!("id-{}", name),
        friendly_name: name.to_string(),
        group_id: format!("group-{}", name),
        vendor_name: "vendor".to_string(),
        device_type,
        state: 2,
        preferred: 0x01,
        format: 0x1010,
        default_format: 0x1000,
        max_channels: 2,
        default_rate: 48000,
        max_rate: 96000,
        min_rate: 8000,
        latency_lo: 128,
        latency_hi: 4096,
    }
}

#[test]
fn collection_yields_every_record_in_order_then_none() {
    let records = vec![record(11, "a", 1), record(22, "b", 2), record(33, "c", 2)];
    let mut c = DeviceCollection::from_native(0, 0x1000, records).unwrap();
    assert_eq!(c.count(), 3);
    let names: Vec<String> = (0..3)
        .map(|_| c.next().unwrap().friendly_name().to_string())
        .collect();
    assert_eq!(names, vec!["a", "b", "c"]);
    assert_eq!(c.count(), 0);
    assert!(c.next().is_none());
    assert!(c.next().is_none());
}

#[test]
fn empty_collection_yields_none_at_once() {
    let mut c = DeviceCollection::from_native(0, 0x2000, Vec::new()).unwrap();
    assert_eq!(c.count(), 0);
    assert!(c.next().is_none());
}

#[test]
fn two_output_devices_then_one_release() {
    let records = vec![record(1, "left", 2), record(2, "right", 2)];
    let mut c = DeviceCollection::from_native(0, 0xabc0, records).unwrap();
    let mut seen = Vec::new();
    while let Some(d) = c.next() {
        assert_eq!(d.device_type(), DeviceType::Output);
        seen.push(d);
    }
    assert_eq!(seen.len(), 2);
    // The records stay readable up to the release.
    assert_eq!(seen[0].friendly_name(), "left");
    assert_eq!(seen[1].device_id(), "id-right");
    assert_eq!(c.release(), Some(0xabc0));
    assert_eq!(c.release(), None);
}

#[test]
fn failed_enumeration_holds_nothing() {
    let r = DeviceCollection::from_native(-1, 0, Vec::new());
    assert!(matches!(r, Err(Error::Undefined)));
    let r = DeviceCollection::from_native(-4, 0, Vec::new());
    assert!(matches!(r, Err(Error::NotSupported)));
}

#[test]
fn device_fields_read_back() {
    let mut c = DeviceCollection::from_native(0, 1, vec![record(0x55, "mic", 1)]).unwrap();
    let d = c.next().unwrap();
    assert_eq!(d.devid(), DevId::from_raw(0x55));
    assert_eq!(d.devid().raw(), 0x55);
    assert_eq!(d.device_id(), "id-mic");
    assert_eq!(d.friendly_name(), "mic");
    assert_eq!(d.group_id(), "group-mic");
    assert_eq!(d.vendor_name(), "vendor");
    assert_eq!(d.device_type(), DeviceType::Input);
    assert_eq!(d.state(), DeviceState::Enabled);
    assert_eq!(d.preferred().bits(), 0x01);
    assert_eq!(d.format().bits(), 0x1010);
    assert_eq!(d.default_format().bits(), 0x1000);
    assert_eq!(d.max_channels(), 2);
    assert_eq!(d.default_rate(), 48000);
    assert_eq!(d.max_rate(), 96000);
    assert_eq!(d.min_rate(), 8000);
    assert_eq!(d.latency_lo(), 128);
    assert_eq!(d.latency_hi(), 4096);
}
