//! The default USB device configuration, the sizes of the buffers the USB device is built with,
//! and the settings of the USB Ethernet (CDC-NCM) class.
use vstd::prelude::*;

verus! {

/// The settings of the USB device descriptor that the system configures.
#[derive(Debug, Copy, Clone, PartialEq, Eq)]
pub struct UsbConfig {
    /// Vendor identifier.
    pub vendor_id: u16,
    /// Product identifier.
    pub product_id: u16,
    /// Manufacturer name.
    pub manufacturer: Option<&'static str>,
    /// Product name.
    pub product: Option<&'static str>,
    /// Serial number.
    pub serial_number: Option<&'static str>,
    /// Maximum power drawn, in milliamperes.
    pub max_power: u16,
    /// Maximum packet size of the control endpoint.
    pub max_packet_size_0: u8,
    /// Whether the device is a composite device with interface association descriptors.
    pub composite_with_iads: bool,
    /// Device class.
    pub device_class: u8,
    /// Device sub-class.
    pub device_sub_class: u8,
    /// Device protocol.
    pub device_protocol: u8,
}

/// Returns the default USB configuration: a composite device (class 0xEF, sub-class 0x02,
/// protocol 0x01, as Windows requires) drawing up to 100 mA, with a 64-byte control endpoint.
pub fn config() -> (r: UsbConfig)
    ensures
        r.vendor_id == 0xc0de,
        r.product_id == 0xcafe,
        r.manufacturer == Some("Embassy"),
        r.product == Some("USB-Ethernet example"),
        r.serial_number == Some("12345678"),
        r.max_power == 100,
        r.max_packet_size_0 == 64,
        r.composite_with_iads,
        r.device_class == 0xEF,
        r.device_sub_class == 0x02,
        r.device_protocol == 0x01,
{
    UsbConfig {
        vendor_id: 0xc0de,
        product_id: 0xcafe,
        manufacturer: Some("Embassy"),
        product: Some("USB-Ethernet example"),
        serial_number: Some("12345678"),
        max_power: 100,
        max_packet_size_0: 64,
        composite_with_iads: true,
        device_class: 0xEF,
        device_sub_class: 0x02,
        device_protocol: 0x01,
    }
}

/// Size, in bytes, of the buffer holding the configuration descriptor.
pub const CONFIG_DESCRIPTOR_LEN: usize = 256;

/// Size, in bytes, of the buffer holding the BOS descriptor.
pub const BOS_DESCRIPTOR_LEN: usize = 256;

/// Size, in bytes, of the buffer holding the Microsoft OS descriptors.
pub const MSOS_DESCRIPTOR_LEN: usize = 128;

/// Size, in bytes, of the buffer for control transfers.
pub const CONTROL_BUFFER_LEN: usize = 128;

/// Maximum packet size of the USB Ethernet (CDC-NCM) class's endpoints.
pub const NCM_MAX_PACKET_SIZE: u16 = 64;

/// Number of packets the USB Ethernet device queues for receiving.
pub const NCM_RX_QUEUE_LEN: usize = 4;

/// Number of packets the USB Ethernet device queues for sending.
pub const NCM_TX_QUEUE_LEN: usize = 4;

/// The MAC address that the host sees for its USB-to-Ethernet adapter.
pub open spec fn host_mac_address_spec() -> Seq<u8> {
    seq![0x8Au8, 0x88u8, 0x88u8, 0x88u8, 0x88u8, 0x88u8]
}

/// The MAC address of the device on the USB Ethernet link.
pub open spec fn device_mac_address_spec() -> Seq<u8> {
    seq![0xCAu8, 0xCCu8, 0xCCu8, 0xCCu8, 0xCCu8, 0xCCu8]
}

/// Returns the MAC address that the host sees for its USB-to-Ethernet adapter,
/// `8A:88:88:88:88:88`.
pub fn host_mac_address() -> (r: [u8; 6])
    ensures
        r@ == host_mac_address_spec(),
{
    let r: [u8; 6] = [0x8A, 0x88, 0x88, 0x88, 0x88, 0x88];
    assert(r@ =~= host_mac_address_spec());
    r
}

/// Returns the MAC address of the device on the USB Ethernet link, `CA:CC:CC:CC:CC:CC`.
pub fn device_mac_address() -> (r: [u8; 6])
    ensures
        r@ == device_mac_address_spec(),
{
    let r: [u8; 6] = [0xCA, 0xCC, 0xCC, 0xCC, 0xCC, 0xCC];
    assert(r@ =~= device_mac_address_spec());
    r
}

} // verus!
