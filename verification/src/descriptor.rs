//! USB descriptors and their wire format.

use vstd::prelude::*;

use crate::bytes::{half_bytes, push_half};
use crate::constants::MAX_PACKET_SIZE;

verus! {

/// Describes the device as a whole.
#[derive(Copy, Clone, PartialEq, Eq, Structural, Debug)]
pub struct DeviceDescriptor {
    pub b_length: u8,
    pub b_descriptor_type: u8,
    pub bcd_usb: u16,
    pub b_device_class: u8,
    pub b_device_sub_class: u8,
    pub b_device_protocol: u8,
    pub b_max_packet_size0: u8,
    pub id_vendor: u16,
    pub id_product: u16,
    pub bcd_device: u16,
    pub i_manufacturer: u8,
    pub i_product: u8,
    pub i_serial_number: u8,
    pub b_num_configurations: u8,
}

impl DeviceDescriptor {
    /// The descriptor as the host receives it.
    pub open spec fn wire(self) -> Seq<u8> {
        seq![self.b_length, self.b_descriptor_type] + half_bytes(self.bcd_usb) + seq![
            self.b_device_class,
            self.b_device_sub_class,
            self.b_device_protocol,
            self.b_max_packet_size0,
        ] + half_bytes(self.id_vendor) + half_bytes(self.id_product) + half_bytes(self.bcd_device)
            + seq![
            self.i_manufacturer,
            self.i_product,
            self.i_serial_number,
            self.b_num_configurations,
        ]
    }

    /// Encodes the descriptor.
    pub fn to_bytes(&self) -> (bytes: Vec<u8>)
        ensures
            bytes@ == self.wire(),
            bytes@.len() == 18,
    {
        let mut bytes: Vec<u8> = Vec::new();
        bytes.push(self.b_length);
        bytes.push(self.b_descriptor_type);
        push_half(&mut bytes, self.bcd_usb);
        bytes.push(self.b_device_class);
        bytes.push(self.b_device_sub_class);
        bytes.push(self.b_device_protocol);
        bytes.push(self.b_max_packet_size0);
        push_half(&mut bytes, self.id_vendor);
        push_half(&mut bytes, self.id_product);
        push_half(&mut bytes, self.bcd_device);
        bytes.push(self.i_manufacturer);
        bytes.push(self.i_product);
        bytes.push(self.i_serial_number);
        bytes.push(self.b_num_configurations);
        bytes
    }
}

/// Heads the descriptors of one configuration.
#[derive(Copy, Clone, PartialEq, Eq, Structural, Debug)]
pub struct ConfigurationDescriptor {
    pub b_length: u8,
    pub b_descriptor_type: u8,
    pub w_total_length: u16,
    pub b_num_interfaces: u8,
    pub b_configuration_value: u8,
    pub i_configuration: u8,
    pub bm_attributes: u8,
    pub b_max_power: u8,
}

impl ConfigurationDescriptor {
    /// The descriptor as the host receives it.
    pub open spec fn wire(self) -> Seq<u8> {
        seq![self.b_length, self.b_descriptor_type] + half_bytes(self.w_total_length) + seq![
            self.b_num_interfaces,
            self.b_configuration_value,
            self.i_configuration,
            self.bm_attributes,
            self.b_max_power,
        ]
    }

    /// Configuration 1 of a bus-powered device, not yet followed by anything.
    pub open spec fn with(
        num_interfaces: u8,
        string_index: u8,
        max_power: u8,
    ) -> ConfigurationDescriptor {
        ConfigurationDescriptor {
            b_length: 9,
            b_descriptor_type: 2,
            w_total_length: 9,
            b_num_interfaces: num_interfaces,
            b_configuration_value: 1,
            i_configuration: string_index,
            bm_attributes: 0x80,
            b_max_power: max_power,
        }
    }

    /// The descriptor with another total length.
    pub open spec fn with_total_length(self, length: u16) -> ConfigurationDescriptor {
        ConfigurationDescriptor { w_total_length: length, ..self }
    }

    /// Configuration 1 of a bus-powered device, not yet followed by anything.
    /// `max_power` counts units of 2 mA.
    pub fn new(num_interfaces: u8, string_index: u8, max_power: u8) -> (r: ConfigurationDescriptor)
        ensures
            r == (ConfigurationDescriptor {
                b_length: 9,
                b_descriptor_type: 2,
                w_total_length: 9,
                b_num_interfaces: num_interfaces,
                b_configuration_value: 1,
                i_configuration: string_index,
                bm_attributes: 0x80,
                b_max_power: max_power,
            }),
            r == ConfigurationDescriptor::with(num_interfaces, string_index, max_power),
    {
        ConfigurationDescriptor {
            b_length: 9,
            b_descriptor_type: 2,
            w_total_length: 9,
            b_num_interfaces: num_interfaces,
            b_configuration_value: 1,
            i_configuration: string_index,
            bm_attributes: 0x80,
            b_max_power: max_power,
        }
    }

    /// Sets the length of the whole configuration, this descriptor included.
    pub fn set_total_length(&mut self, length: u16)
        ensures
            *final(self) == (ConfigurationDescriptor { w_total_length: length, ..*old(self) }),
            *final(self) == old(self).with_total_length(length),
    {
        self.w_total_length = length;
    }

    /// Encodes the descriptor.
    pub fn to_bytes(&self) -> (bytes: Vec<u8>)
        ensures
            bytes@ == self.wire(),
            bytes@.len() == 9,
    {
        let mut bytes: Vec<u8> = Vec::new();
        bytes.push(self.b_length);
        bytes.push(self.b_descriptor_type);
        push_half(&mut bytes, self.w_total_length);
        bytes.push(self.b_num_interfaces);
        bytes.push(self.b_configuration_value);
        bytes.push(self.i_configuration);
        bytes.push(self.bm_attributes);
        bytes.push(self.b_max_power);
        bytes
    }
}

/// Describes an interface.
#[derive(Copy, Clone, PartialEq, Eq, Structural, Debug)]
pub struct InterfaceDescriptor {
    pub b_length: u8,
    pub b_descriptor_type: u8,
    pub b_interface_number: u8,
    pub b_alternate_setting: u8,
    pub b_num_endpoints: u8,
    pub b_interface_class: u8,
    pub b_interface_sub_class: u8,
    pub b_interface_protocol: u8,
    pub i_interface: u8,
}

impl InterfaceDescriptor {
    /// The descriptor of an interface with two endpoints.
    pub open spec fn with(
        string_index: u8,
        number: u8,
        class: u8,
        sub_class: u8,
        protocol: u8,
    ) -> InterfaceDescriptor {
        InterfaceDescriptor {
            b_length: 9,
            b_descriptor_type: 4,
            b_interface_number: number,
            b_alternate_setting: 0,
            b_num_endpoints: 2,
            b_interface_class: class,
            b_interface_sub_class: sub_class,
            b_interface_protocol: protocol,
            i_interface: string_index,
        }
    }

    /// The descriptor as the host receives it.
    pub open spec fn wire(self) -> Seq<u8> {
        seq![
            self.b_length,
            self.b_descriptor_type,
            self.b_interface_number,
            self.b_alternate_setting,
            self.b_num_endpoints,
            self.b_interface_class,
            self.b_interface_sub_class,
            self.b_interface_protocol,
            self.i_interface,
        ]
    }

    /// The descriptor of an interface with two endpoints.
    pub fn new(string_index: u8, number: u8, class: u8, sub_class: u8, protocol: u8) -> (r:
        InterfaceDescriptor)
        ensures
            r == InterfaceDescriptor::with(string_index, number, class, sub_class, protocol),
    {
        InterfaceDescriptor {
            b_length: 9,
            b_descriptor_type: 4,
            b_interface_number: number,
            b_alternate_setting: 0,
            b_num_endpoints: 2,
            b_interface_class: class,
            b_interface_sub_class: sub_class,
            b_interface_protocol: protocol,
            i_interface: string_index,
        }
    }

    /// Encodes the descriptor.
    pub fn to_bytes(&self) -> (bytes: Vec<u8>)
        ensures
            bytes@ == self.wire(),
            bytes@.len() == 9,
    {
        let mut bytes: Vec<u8> = Vec::new();
        bytes.push(self.b_length);
        bytes.push(self.b_descriptor_type);
        bytes.push(self.b_interface_number);
        bytes.push(self.b_alternate_setting);
        bytes.push(self.b_num_endpoints);
        bytes.push(self.b_interface_class);
        bytes.push(self.b_interface_sub_class);
        bytes.push(self.b_interface_protocol);
        bytes.push(self.i_interface);
        bytes
    }
}

/// How an endpoint moves data.
#[derive(Copy, Clone, PartialEq, Eq, Structural, Debug)]
pub enum EndpointTransferType {
    Control,
    Isochronous,
    Bulk,
    Interrupt,
}

/// How an isochronous endpoint keeps in step with its peer.
#[derive(Copy, Clone, PartialEq, Eq, Structural, Debug)]
pub enum EndpointSynchronizationType {
    Unsynchronized,
    Asynchronous,
    Adaptive,
    Synchronous,
}

/// What an endpoint is used for.
#[derive(Copy, Clone, PartialEq, Eq, Structural, Debug)]
pub enum EndpointUsageType {
    Data,
    Feedback,
    ImplicitFeedback,
    Reserved,
}

/// The attributes of an endpoint.
#[derive(Copy, Clone, PartialEq, Eq, Structural, Debug)]
pub struct EndpointAttributes {
    pub transfer: EndpointTransferType,
    pub synchronization: EndpointSynchronizationType,
    pub usage: EndpointUsageType,
}

impl EndpointAttributes {
    /// The attribute byte: transfer type in bits 1:0, synchronization in bits
    /// 3:2, usage in bits 5:4.
    pub open spec fn code(self) -> u8 {
        let transfer: int = match self.transfer {
            EndpointTransferType::Control => 0,
            EndpointTransferType::Isochronous => 1,
            EndpointTransferType::Bulk => 2,
            EndpointTransferType::Interrupt => 3,
        };
        let synchronization: int = match self.synchronization {
            EndpointSynchronizationType::Unsynchronized => 0,
            EndpointSynchronizationType::Asynchronous => 1,
            EndpointSynchronizationType::Adaptive => 2,
            EndpointSynchronizationType::Synchronous => 3,
        };
        let usage: int = match self.usage {
            EndpointUsageType::Data => 0,
            EndpointUsageType::Feedback => 1,
            EndpointUsageType::ImplicitFeedback => 2,
            EndpointUsageType::Reserved => 3,
        };
        (transfer + 4 * synchronization + 16 * usage) as u8
    }

    /// The attribute byte.
    pub fn to_byte(&self) -> (r: u8)
        ensures
            r == self.code(),
    {
        let transfer: u8 = match self.transfer {
            EndpointTransferType::Control => 0,
            EndpointTransferType::Isochronous => 1,
            EndpointTransferType::Bulk => 2,
            EndpointTransferType::Interrupt => 3,
        };
        let synchronization: u8 = match self.synchronization {
            EndpointSynchronizationType::Unsynchronized => 0,
            EndpointSynchronizationType::Asynchronous => 1,
            EndpointSynchronizationType::Adaptive => 2,
            EndpointSynchronizationType::Synchronous => 3,
        };
        let usage: u8 = match self.usage {
            EndpointUsageType::Data => 0,
            EndpointUsageType::Feedback => 1,
            EndpointUsageType::ImplicitFeedback => 2,
            EndpointUsageType::Reserved => 3,
        };
        transfer + 4 * synchronization + 16 * usage
    }
}

/// Describes an endpoint.
#[derive(Copy, Clone, PartialEq, Eq, Structural, Debug)]
pub struct EndpointDescriptor {
    pub b_length: u8,
    pub b_descriptor_type: u8,
    pub b_endpoint_address: u8,
    pub bm_attributes: u8,
    pub w_max_packet_size: u16,
    pub b_interval: u8,
}

impl EndpointDescriptor {
    /// The descriptor of an endpoint with 64-byte packets.
    pub open spec fn with(
        address: u8,
        attributes: EndpointAttributes,
        interval: u8,
    ) -> EndpointDescriptor {
        EndpointDescriptor {
            b_length: 7,
            b_descriptor_type: 5,
            b_endpoint_address: address,
            bm_attributes: attributes.code(),
            w_max_packet_size: MAX_PACKET_SIZE,
            b_interval: interval,
        }
    }

    /// The descriptor as the host receives it.
    pub open spec fn wire(self) -> Seq<u8> {
        seq![
            self.b_length,
            self.b_descriptor_type,
            self.b_endpoint_address,
            self.bm_attributes,
        ] + half_bytes(self.w_max_packet_size) + seq![self.b_interval]
    }

    /// The descriptor of an endpoint with 64-byte packets.
    pub fn new(address: u8, attributes: EndpointAttributes, interval: u8) -> (r: EndpointDescriptor)
        ensures
            r == EndpointDescriptor::with(address, attributes, interval),
    {
        EndpointDescriptor {
            b_length: 7,
            b_descriptor_type: 5,
            b_endpoint_address: address,
            bm_attributes: attributes.to_byte(),
            w_max_packet_size: MAX_PACKET_SIZE,
            b_interval: interval,
        }
    }

    /// Encodes the descriptor.
    pub fn to_bytes(&self) -> (bytes: Vec<u8>)
        ensures
            bytes@ == self.wire(),
            bytes@.len() == 7,
    {
        let mut bytes: Vec<u8> = Vec::new();
        bytes.push(self.b_length);
        bytes.push(self.b_descriptor_type);
        bytes.push(self.b_endpoint_address);
        bytes.push(self.bm_attributes);
        push_half(&mut bytes, self.w_max_packet_size);
        bytes.push(self.b_interval);
        bytes
    }
}

/// Describes a HID device with one report descriptor.
#[derive(Copy, Clone, PartialEq, Eq, Structural, Debug)]
pub struct HidDeviceDescriptor {
    pub b_length: u8,
    pub b_descriptor_type: u8,
    pub bcd_hid: u16,
    pub b_country_code: u8,
    pub b_num_descriptors: u8,
    pub b_report_type: u8,
    pub w_report_length: u16,
}

impl HidDeviceDescriptor {
    /// The HID descriptor of the U2F interface.
    pub open spec fn u2f() -> HidDeviceDescriptor {
        HidDeviceDescriptor {
            b_length: 9,
            b_descriptor_type: 0x21,
            bcd_hid: 0x0100,
            b_country_code: 0,
            b_num_descriptors: 1,
            b_report_type: 0x22,
            w_report_length: u2f_report().len() as u16,
        }
    }

    /// The descriptor as the host receives it.
    pub open spec fn wire(self) -> Seq<u8> {
        seq![self.b_length, self.b_descriptor_type] + half_bytes(self.bcd_hid) + seq![
            self.b_country_code,
            self.b_num_descriptors,
            self.b_report_type,
        ] + half_bytes(self.w_report_length)
    }

    /// The HID descriptor of the U2F interface.
    pub fn new() -> (r: HidDeviceDescriptor)
        ensures
            r == HidDeviceDescriptor::u2f(),
    {
        HidDeviceDescriptor {
            b_length: 9,
            b_descriptor_type: 0x21,
            bcd_hid: 0x0100,
            b_country_code: 0,
            b_num_descriptors: 1,
            b_report_type: 0x22,
            w_report_length: 34,
        }
    }

    /// Encodes the descriptor.
    pub fn to_bytes(&self) -> (bytes: Vec<u8>)
        ensures
            bytes@ == self.wire(),
            bytes@.len() == 9,
    {
        let mut bytes: Vec<u8> = Vec::new();
        bytes.push(self.b_length);
        bytes.push(self.b_descriptor_type);
        push_half(&mut bytes, self.bcd_hid);
        bytes.push(self.b_country_code);
        bytes.push(self.b_num_descriptors);
        bytes.push(self.b_report_type);
        push_half(&mut bytes, self.w_report_length);
        bytes
    }
}

/// The HID report descriptor of a U2F device: 64-byte frames in and out.
pub open spec fn u2f_report() -> Seq<u8> {
    seq![
        0x06, 0xd0, 0xf1, // Usage page (FIDO)
        0x09, 0x01, // Usage (U2F HID)
        0xa1, 0x01, // Collection (application)
        0x09, 0x20, // Usage (input report data)
        0x15, 0x00, // Logical minimum (0)
        0x26, 0xff, 0x00, // Logical maximum (255)
        0x75, 0x08, // Report size (8)
        0x95, 0x40, // Report count (64)
        0x81, 0x02, // Input
        0x09, 0x21, // Usage (output report data)
        0x15, 0x00, // Logical minimum (0)
        0x26, 0xff, 0x00, // Logical maximum (255)
        0x75, 0x08, // Report size (8)
        0x95, 0x40, // Report count (64)
        0x91, 0x02, // Output
        0xc0, // End collection
    ]
}

/// The HID report descriptor of a U2F device.
pub fn u2f_report_descriptor() -> (r: [u8; 34])
    ensures
        r@ == u2f_report(),
{
    let report: [u8; 34] = [
        0x06, 0xd0, 0xf1,
        0x09, 0x01,
        0xa1, 0x01,
        0x09, 0x20,
        0x15, 0x00,
        0x26, 0xff, 0x00,
        0x75, 0x08,
        0x95, 0x40,
        0x81, 0x02,
        0x09, 0x21,
        0x15, 0x00,
        0x26, 0xff, 0x00,
        0x75, 0x08,
        0x95, 0x40,
        0x91, 0x02,
        0xc0,
    ];
    report
}

/// A string in UTF-16 that the host may ask for by its index.
#[derive(Debug)]
pub struct StringDescriptor {
    pub b_string: Vec<u16>,
}

impl StringDescriptor {
    /// The length of the descriptor fits the byte that holds it.
    pub open spec fn wf(self) -> bool {
        self.b_string@.len() <= 126
    }

    /// The descriptor as the host receives it.
    pub open spec fn wire(self) -> Seq<u8> {
        seq![(2 + 2 * self.b_string@.len()) as u8, 3] + Seq::new(
            2 * self.b_string@.len(),
            |i: int| half_bytes(self.b_string@[i / 2])[i % 2],
        )
    }

    /// Encodes the descriptor.
    pub fn to_bytes(&self) -> (bytes: Vec<u8>)
        requires
            self.wf(),
        ensures
            bytes@ == self.wire(),
            bytes@.len() == 2 + 2 * self.b_string@.len(),
    {
        let len: usize = self.b_string.len();
        let mut bytes: Vec<u8> = Vec::new();
        bytes.push(2 + 2 * len as u8);
        bytes.push(3);
        let mut i: usize = 0;
        while i < len
            invariant
                i <= len,
                len == self.b_string@.len(),
                self.wf(),
                bytes@ == self.wire().take(2 + 2 * i),
            decreases len - i,
        {
            push_half(&mut bytes, self.b_string[i]);
            i = i + 1;
            proof {
                let w = self.wire();
                assert(w[2 * i] == half_bytes(self.b_string@[i - 1])[0]);
                assert(w[2 * i + 1] == half_bytes(self.b_string@[i - 1])[1]);
                assert(w.take(2 + 2 * i) =~= w.take(2 * i) + half_bytes(self.b_string@[i - 1]));
            }
        }
        assert(self.wire().take(2 + 2 * i) =~= self.wire());
        bytes
    }
}

} // verus!
