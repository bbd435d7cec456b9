use sed_manager_cli::device::{device_list_line, device_source, DeviceSource, DEVICE_NAME_WIDTH};

#[test]
fn fake_device_names() {
    assert_eq!(device_source("fake"), DeviceSource::Fake);
    assert_eq!(device_source("FAKE"), DeviceSource::Fake);
    assert_eq!(device_source("Fake_Device"), DeviceSource::Fake);
    assert_eq!(device_source("fake_device"), DeviceSource::Fake);
}

#[test]
fn physical_device_names() {
    assert_eq!(device_source("/dev/nvme0"), DeviceSource::Physical);
    assert_eq!(device_source("fake "), DeviceSource::Physical);
    assert_eq!(device_source("fakedevice"), DeviceSource::Physical);
    assert_eq!(device_source(""), DeviceSource::Physical);
    assert_eq!(device_source("fak\u{212A}"), DeviceSource::Physical);
}

#[test]
fn device_list_lines_are_padded() {
    assert_eq!(DEVICE_NAME_WIDTH, 20);
    assert_eq!(device_list_line("/dev/nvme0"), format!("{:<20}", "/dev/nvme0"));
    assert_eq!(device_list_line("/dev/nvme0"), "/dev/nvme0          ");
    assert_eq!(device_list_line(""), " ".repeat(20));
    let long = "/dev/disk/by-id/nvme-Samsung_SSD_980";
    assert_eq!(device_list_line(long), long);
    assert_eq!(device_list_line("éé"), format!("{:<20}", "éé"));
}
