//! The standard USB device descriptor, decoded from the fixed-layout native
//! struct into plain fields.

use vstd::prelude::*;

verus! {

/// A USB device descriptor.
///
/// The fields mirror the standard descriptor layout one for one; the runtime
/// fills them from the native record. The high byte of `bcd_usb` classifies
/// the connection as USB2 (value 2) or USB3 (value 3).
#[derive(Debug, Clone, Copy, PartialEq, Eq, Structural)]
pub struct DeviceDescriptor {
    /// Size of the native descriptor in bytes.
    pub length: u8,
    /// Descriptor type tag.
    pub descriptor_type: u8,
    /// USB specification number the device complies to, binary-coded decimal.
    pub bcd_usb: u16,
    /// Device class code assigned by the USB organization.
    pub device_class: u8,
    /// Device subclass code assigned by the USB organization.
    pub device_sub_class: u8,
    /// Device protocol code assigned by the USB organization.
    pub device_protocol: u8,
    /// Maximum packet size for endpoint zero.
    pub max_packet_size0: u8,
    /// Vendor ID assigned by the USB organization.
    pub id_vendor: u16,
    /// Product ID assigned by the manufacturer.
    pub id_product: u16,
    /// Device release number, binary-coded decimal.
    pub bcd_device: u16,
    /// Index of the manufacturer string descriptor.
    pub i_manufacturer: u8,
    /// Index of the product string descriptor.
    pub i_product: u8,
    /// Index of the serial-number string descriptor.
    pub i_serial_number: u8,
    /// Number of possible configurations.
    pub num_configurations: u8,
}

impl DeviceDescriptor {
    /// True when the high byte of the USB specification number is 2.
    pub open spec fn spec_is_usb2(self) -> bool {
        (self.bcd_usb >> 8) & 0xFF == 2
    }

    /// True when the high byte of the USB specification number is 3.
    pub open spec fn spec_is_usb3(self) -> bool {
        (self.bcd_usb >> 8) & 0xFF == 3
    }

    /// The USB specification number the device complies to.
    pub fn usb_specification_number(&self) -> (r: usize)
        ensures
            r == self.bcd_usb,
    {
        self.bcd_usb as usize
    }

    /// Check if the device is connected using a USB2 cable.
    pub fn is_usb2(&self) -> (r: bool)
        ensures
            r == self.spec_is_usb2(),
    {
        (self.bcd_usb >> 8) & 0xFF == 2
    }

    /// Check if the device is connected using a USB3 cable.
    pub fn is_usb3(&self) -> (r: bool)
        ensures
            r == self.spec_is_usb3(),
    {
        (self.bcd_usb >> 8) & 0xFF == 3
    }

    /// The device class code assigned by the USB organization.
    pub fn class_code(&self) -> (r: usize)
        ensures
            r == self.device_class,
    {
        self.device_class as usize
    }

    /// The device subclass code assigned by the USB organization.
    pub fn subclass_code(&self) -> (r: usize)
        ensures
            r == self.device_sub_class,
    {
        self.device_sub_class as usize
    }

    /// The device protocol code assigned by the USB organization.
    pub fn protocol_code(&self) -> (r: usize)
        ensures
            r == self.device_protocol,
    {
        self.device_protocol as usize
    }

    /// The maximum packet size for endpoint zero.
    pub fn max_packet_size(&self) -> (r: usize)
        ensures
            r == self.max_packet_size0,
    {
        self.max_packet_size0 as usize
    }

    /// The device vendor ID assigned by the USB organization.
    pub fn vendor_id(&self) -> (r: usize)
        ensures
            r == self.id_vendor,
    {
        self.id_vendor as usize
    }

    /// The device product ID assigned by the manufacturer.
    pub fn product_id(&self) -> (r: usize)
        ensures
            r == self.id_product,
    {
        self.id_product as usize
    }

    /// The device release number.
    pub fn release_number(&self) -> (r: usize)
        ensures
            r == self.bcd_device,
    {
        self.bcd_device as usize
    }

    /// The number of possible configurations for the device.
    pub fn num_configurations(&self) -> (r: usize)
        ensures
            r == self.num_configurations,
    {
        self.num_configurations as usize
    }
}

} // verus!
