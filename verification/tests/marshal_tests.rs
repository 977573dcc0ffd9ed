use ft60x::descriptor::DeviceDescriptor;
use ft60x::error::D3xxError;
use ft60x::info::{list_devices, DeviceInfo, DeviceRecord, MAX_DEVICES};
use ft60x::version::Version;

fn record_with(id: u32, handle: u64, serial: &[u8], description: &[u8]) -> DeviceRecord {
    let mut serial_buf = [0u8; 16];
    serial_buf[..serial.len()].copy_from_slice(serial);
    let mut description_buf = [0u8; 32];
    description_buf[..description.len()].copy_from_slice(description);
    DeviceRecord {
        flags: 0,
        device_type: 0,
        id,
        loc_id: 0,
        serial_number: serial_buf,
        description: description_buf,
        handle,
    }
}

#[test]
fn version_decomposition() {
    let v = Version::new(0x01020304);
    assert_eq!(v.major(), 1);
    assert_eq!(v.minor(), 2);
    assert_eq!(v.svn(), 3);
    assert_eq!(v.build(), 4);
}

#[test]
fn version_extremes() {
    let v = Version::new(0);
    assert_eq!((v.major(), v.minor(), v.svn(), v.build()), (0, 0, 0, 0));
    let v = Version::new(0xFFFFFFFF);
    assert_eq!(
        (v.major(), v.minor(), v.svn(), v.build()),
        (0xFF, 0xFF, 0xFF, 0xFF)
    );
}

#[test]
fn id_splitting() {
    let info = DeviceInfo::new(0, record_with(0x04B31234, 0, b"", b""));
    assert_eq!(info.vendor_id(), 0x04B3);
    assert_eq!(info.product_id(), 0x1234);
}

#[test]
fn info_accessors() {
    let mut rec = record_with(0, 0, b"FT123456", b"FTDI SuperSpeed-FIFO Bridge");
    rec.flags = 0x4;
    rec.device_type = 600;
    rec.loc_id = 0x101;
    let info = DeviceInfo::new(3, rec);
    assert_eq!(info.index(), 3);
    assert_eq!(info.flags(), 0x4);
    assert_eq!(info.type_(), 600);
    assert_eq!(info.location_identifier(), 0x101);
    assert_eq!(info.raw_handle(), None);
    assert!(!info.is_open());
}

#[test]
fn info_open_handle() {
    let info = DeviceInfo::new(0, record_with(0, 0xDEAD, b"", b""));
    assert_eq!(info.raw_handle(), Some(0xDEAD));
    assert!(info.is_open());
}

#[test]
fn text_buffers_decode_up_to_nul() {
    let info = DeviceInfo::new(0, record_with(0, 0, b"FT123456", b"FTDI Bridge"));
    assert_eq!(info.serial_number().unwrap(), "FT123456");
    assert_eq!(info.description().unwrap(), "FTDI Bridge");
}

#[test]
fn text_buffer_without_nul_uses_whole_buffer() {
    let info = DeviceInfo::new(0, record_with(0, 0, b"0123456789ABCDEF", b""));
    assert_eq!(info.serial_number().unwrap(), "0123456789ABCDEF");
    assert_eq!(info.description().unwrap(), "");
}

#[test]
fn invalid_text_fails_with_decode_error() {
    let info = DeviceInfo::new(0, record_with(0, 0, &[0xFF, 0xFE, 0x41], b""));
    assert_eq!(info.serial_number(), Err(D3xxError::OtherError));
}

#[test]
fn bytes_after_nul_are_ignored() {
    let info = DeviceInfo::new(0, record_with(0, 0, &[0x41, 0x42, 0, 0xFF, 0xFF], b""));
    assert_eq!(info.serial_number().unwrap(), "AB");
}

#[test]
fn enumeration_bound() {
    let mut records = Vec::new();
    for i in 0..40u32 {
        records.push(record_with(i, 0, b"S", b"D"));
    }
    let snapshot = list_devices(&records);
    assert_eq!(snapshot.len(), MAX_DEVICES);
    for (i, entry) in snapshot.iter().enumerate() {
        assert_eq!(entry.index(), i);
        assert_eq!(entry.product_id() as usize, i);
    }
}

#[test]
fn enumeration_under_bound() {
    let records = vec![
        record_with(1, 0, b"A", b""),
        record_with(2, 7, b"B", b""),
    ];
    let snapshot = list_devices(&records);
    assert_eq!(snapshot.len(), 2);
    assert_eq!(snapshot[0].index(), 0);
    assert_eq!(snapshot[1].index(), 1);
    assert_eq!(snapshot[1].raw_handle(), Some(7));
}

#[test]
fn descriptor_usb_generation() {
    let mut d = DeviceDescriptor {
        length: 18,
        descriptor_type: 1,
        bcd_usb: 0x0300,
        device_class: 0,
        device_sub_class: 0,
        device_protocol: 0,
        max_packet_size0: 9,
        id_vendor: 0x0403,
        id_product: 0x601F,
        bcd_device: 0x0100,
        i_manufacturer: 1,
        i_product: 2,
        i_serial_number: 3,
        num_configurations: 1,
    };
    assert!(d.is_usb3());
    assert!(!d.is_usb2());
    d.bcd_usb = 0x0210;
    assert!(d.is_usb2());
    assert!(!d.is_usb3());
    assert_eq!(d.usb_specification_number(), 0x0210);
    assert_eq!(d.vendor_id(), 0x0403);
    assert_eq!(d.product_id(), 0x601F);
    assert_eq!(d.max_packet_size(), 9);
    assert_eq!(d.release_number(), 0x0100);
    assert_eq!(d.num_configurations(), 1);
    assert_eq!(d.class_code(), 0);
    assert_eq!(d.subclass_code(), 0);
    assert_eq!(d.protocol_code(), 0);
}
