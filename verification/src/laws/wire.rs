//! What goes over the wire: SETUP packets and descriptors, byte by byte.

use vstd::prelude::*;

use crate::bytes::{bytes_of, half_bytes, law_half_bytes};
use crate::descriptor::{
    u2f_report, ConfigurationDescriptor, DeviceDescriptor, EndpointAttributes, EndpointDescriptor,
    EndpointSynchronizationType, EndpointTransferType, EndpointUsageType, HidDeviceDescriptor,
    InterfaceDescriptor, StringDescriptor,
};
use crate::init::full_configuration;
use crate::request::{
    Descriptor, SetupClassRequestType, SetupDirection, SetupRecipient, SetupRequest,
    SetupRequestClass, SetupRequestType,
};
use crate::setup::{reply_length, u2f_interface};
use crate::usb::USB;

verus! {

// SETUP packets.

/// The fields of a SETUP packet stand in the two words that received it: request
/// type, request code and value in the first, index and length in the second,
/// each as wide as it is there.
pub proof fn law_setup_packet(words: Seq<u32>)
    requires
        words.len() >= 2,
    ensures
        ({
            let request = SetupRequest::parse(bytes_of(words));
            &&& request.bm_request_type == words[0] & 0xff
            &&& request.b_request == (words[0] >> 8) & 0xff
            &&& request.w_value == words[0] >> 16
            &&& request.w_index == words[1] & 0xffff
            &&& request.w_length == words[1] >> 16
        }),
{
    let w0 = words[0];
    let w1 = words[1];
    let b = bytes_of(words);
    assert(b[0] == w0 % 0x100 && b[1] == w0 / 0x100 % 0x100);
    assert(b[2] == w0 / 0x1_0000 % 0x100 && b[3] == w0 / 0x100_0000);
    assert(b[4] == w1 % 0x100 && b[5] == w1 / 0x100 % 0x100);
    assert(b[6] == w1 / 0x1_0000 % 0x100 && b[7] == w1 / 0x100_0000);
    assert(w0 & 0xff == w0 % 0x100 && (w0 >> 8) & 0xff == w0 / 0x100 % 0x100 && w0 >> 16 == w0
        / 0x1_0000 && w1 & 0xffff == w1 % 0x1_0000 && w1 >> 16 == w1 / 0x1_0000) by (bit_vector);
}

/// Bit 7 of the request type tells the direction, bits 6:5 the class and bits 4:0
/// the recipient.
pub proof fn law_request_type(request: SetupRequest)
    ensures
        ({
            let bits = request.bm_request_type;
            &&& (request.direction() == SetupDirection::DeviceToHost) == (bits & 0x80 == 0x80)
            &&& (request.class() == SetupRequestClass::Standard) == (bits & 0x60 == 0)
            &&& (request.class() == SetupRequestClass::Class) == (bits & 0x60 == 0x20)
            &&& (request.class() == SetupRequestClass::Vendor) == (bits & 0x60 == 0x40)
            &&& (request.target() == SetupRecipient::Device) == (bits & 0x1f == 0)
            &&& (request.target() == SetupRecipient::Interface) == (bits & 0x1f == 1)
            &&& (request.target() == SetupRecipient::Endpoint) == (bits & 0x1f == 2)
            &&& (request.target() == SetupRecipient::Other) == (bits & 0x1f == 3)
        }),
{
    let bits = request.bm_request_type;
    assert(bits & 0x80 == bits / 0x80 * 0x80 && bits & 0x60 == bits / 0x20 % 4 * 0x20 && bits & 0x1f
        == bits % 0x20) by (bit_vector);
}

/// Each standard request and each HID class request has its code, and every other
/// code is undefined.
pub proof fn law_request_codes(request: SetupRequest)
    ensures
        ({
            let code = request.b_request;
            let standard = request.standard_code();
            let class = request.class_code();
            &&& (standard == SetupRequestType::GetStatus) == (code == 0)
            &&& (standard == SetupRequestType::ClearFeature) == (code == 1)
            &&& (standard == SetupRequestType::SetFeature) == (code == 3)
            &&& (standard == SetupRequestType::SetAddress) == (code == 5)
            &&& (standard == SetupRequestType::GetDescriptor) == (code == 6)
            &&& (standard == SetupRequestType::SetDescriptor) == (code == 7)
            &&& (standard == SetupRequestType::GetConfiguration) == (code == 8)
            &&& (standard == SetupRequestType::SetConfiguration) == (code == 9)
            &&& (standard == SetupRequestType::GetInterface) == (code == 10)
            &&& (standard == SetupRequestType::SetInterface) == (code == 11)
            &&& (standard == SetupRequestType::SynchFrame) == (code == 12)
            &&& (class == SetupClassRequestType::GetReport) == (code == 1)
            &&& (class == SetupClassRequestType::GetIdle) == (code == 2)
            &&& (class == SetupClassRequestType::GetProtocol) == (code == 3)
            &&& (class == SetupClassRequestType::SetReport) == (code == 9)
            &&& (class == SetupClassRequestType::SetIdle) == (code == 10)
            &&& (class == SetupClassRequestType::SetProtocol) == (code == 11)
        }),
{
}

/// The value of a request is made of its low byte, the index of a descriptor, and
/// its high byte, the kind of the descriptor.
pub proof fn law_request_value(request: SetupRequest)
    ensures
        request.value_low() + 0x100 * request.value_high() == request.w_value,
{
}

/// Each kind of descriptor has its code: 1 to 8 for those of USB itself, 0x21 to
/// 0x23 for those of the HID class.
pub proof fn law_descriptor_codes(code: u8)
    ensures
        (Descriptor::of(code) == Descriptor::Device) == (code == 1),
        (Descriptor::of(code) == Descriptor::Configuration) == (code == 2),
        (Descriptor::of(code) == Descriptor::String) == (code == 3),
        (Descriptor::of(code) == Descriptor::Interface) == (code == 4),
        (Descriptor::of(code) == Descriptor::Endpoint) == (code == 5),
        (Descriptor::of(code) == Descriptor::DeviceQualifier) == (code == 6),
        (Descriptor::of(code) == Descriptor::OtherSpeedConfiguration) == (code == 7),
        (Descriptor::of(code) == Descriptor::InterfacePower) == (code == 8),
        (Descriptor::of(code) == Descriptor::HidDevice) == (code == 0x21),
        (Descriptor::of(code) == Descriptor::Report) == (code == 0x22),
        (Descriptor::of(code) == Descriptor::Physical) == (code == 0x23),
{
}

/// A reply is as long as the data and as the host's length allow, and no shorter.
pub proof fn law_reply_length(len: int, w_length: u16)
    requires
        0 <= len,
    ensures
        reply_length(len, w_length) <= len,
        reply_length(len, w_length) <= w_length,
        reply_length(len, w_length) == len || reply_length(len, w_length) == w_length,
{
}

// Descriptors.

/// The device descriptor tells the host the class and the ids that the driver has;
/// the rest of its 18 bytes is the same for every driver: USB 2.0, 64-byte packets
/// on endpoint 0, release 1.0, strings 1 and 2, no serial number, one
/// configuration.
pub proof fn law_device_descriptor(usb: USB)
    ensures
        usb.device_descriptor().wire() == seq![
            18u8,
            1,
            0x00,
            0x02,
            usb.device_class,
            0,
            0,
            64,
            (usb.vendor_id & 0xff) as u8,
            (usb.vendor_id >> 8) as u8,
            (usb.product_id & 0xff) as u8,
            (usb.product_id >> 8) as u8,
            0x00,
            0x01,
            1,
            2,
            0,
            1,
        ],
{
    law_half_bytes(usb.vendor_id);
    law_half_bytes(usb.product_id);
    assert(usb.device_descriptor().wire() =~= seq![
        18u8,
        1,
        0x00,
        0x02,
        usb.device_class,
        0,
        0,
        64,
        (usb.vendor_id & 0xff) as u8,
        (usb.vendor_id >> 8) as u8,
        (usb.product_id & 0xff) as u8,
        (usb.product_id >> 8) as u8,
        0x00,
        0x01,
        1,
        2,
        0,
        1,
    ]);
}

/// Each field of a device descriptor stands at its place, the wider ones
/// little-endian.
pub proof fn law_device_fields(descriptor: DeviceDescriptor)
    ensures
        ({
            let wire = descriptor.wire();
            &&& wire.len() == 18
            &&& wire[0] == descriptor.b_length
            &&& wire[1] == descriptor.b_descriptor_type
            &&& wire[2] + 0x100 * wire[3] == descriptor.bcd_usb
            &&& wire[4] == descriptor.b_device_class
            &&& wire[5] == descriptor.b_device_sub_class
            &&& wire[6] == descriptor.b_device_protocol
            &&& wire[7] == descriptor.b_max_packet_size0
            &&& wire[8] + 0x100 * wire[9] == descriptor.id_vendor
            &&& wire[10] + 0x100 * wire[11] == descriptor.id_product
            &&& wire[12] + 0x100 * wire[13] == descriptor.bcd_device
            &&& wire[14] == descriptor.i_manufacturer
            &&& wire[15] == descriptor.i_product
            &&& wire[16] == descriptor.i_serial_number
            &&& wire[17] == descriptor.b_num_configurations
        }),
{
}

/// A configuration descriptor that nothing follows: configuration 1 of a bus-powered
/// device. Setting the total length changes only that.
pub proof fn law_configuration_descriptor(
    num_interfaces: u8,
    string_index: u8,
    max_power: u8,
    length: u16,
)
    ensures
        ({
            let head = ConfigurationDescriptor::with(num_interfaces, string_index, max_power);
            &&& head.wire() == seq![
                9u8,
                2,
                9,
                0,
                num_interfaces,
                1,
                string_index,
                0x80,
                max_power,
            ]
            &&& head.with_total_length(length).wire() == seq![
                9u8,
                2,
                (length & 0xff) as u8,
                (length >> 8) as u8,
                num_interfaces,
                1,
                string_index,
                0x80,
                max_power,
            ]
        }),
{
    law_half_bytes(length);
    let head = ConfigurationDescriptor::with(num_interfaces, string_index, max_power);
    assert(head.wire() =~= seq![9u8, 2, 9, 0, num_interfaces, 1, string_index, 0x80, max_power]);
    assert(head.with_total_length(length).wire() =~= seq![
        9u8,
        2,
        (length & 0xff) as u8,
        (length >> 8) as u8,
        num_interfaces,
        1,
        string_index,
        0x80,
        max_power,
    ]);
}

/// Each field of a configuration descriptor stands at its place.
pub proof fn law_configuration_fields(descriptor: ConfigurationDescriptor)
    ensures
        ({
            let wire = descriptor.wire();
            &&& wire.len() == 9
            &&& wire[0] == descriptor.b_length
            &&& wire[1] == descriptor.b_descriptor_type
            &&& wire[2] + 0x100 * wire[3] == descriptor.w_total_length
            &&& wire[4] == descriptor.b_num_interfaces
            &&& wire[5] == descriptor.b_configuration_value
            &&& wire[6] == descriptor.i_configuration
            &&& wire[7] == descriptor.bm_attributes
            &&& wire[8] == descriptor.b_max_power
        }),
{
}

/// An interface descriptor tells the host the number, the class and the string of
/// the interface, and that it has two endpoints.
pub proof fn law_interface_descriptor(
    string_index: u8,
    number: u8,
    class: u8,
    sub_class: u8,
    protocol: u8,
)
    ensures
        InterfaceDescriptor::with(string_index, number, class, sub_class, protocol).wire() == seq![
            9u8,
            4,
            number,
            0,
            2,
            class,
            sub_class,
            protocol,
            string_index,
        ],
{
}

/// Each field of an interface descriptor stands at its place.
pub proof fn law_interface_fields(descriptor: InterfaceDescriptor)
    ensures
        descriptor.wire() == seq![
            descriptor.b_length,
            descriptor.b_descriptor_type,
            descriptor.b_interface_number,
            descriptor.b_alternate_setting,
            descriptor.b_num_endpoints,
            descriptor.b_interface_class,
            descriptor.b_interface_sub_class,
            descriptor.b_interface_protocol,
            descriptor.i_interface,
        ],
{
}

/// An endpoint descriptor tells the host the address, the attributes and the
/// interval of the endpoint, and that its packets have 64 bytes.
pub proof fn law_endpoint_descriptor(address: u8, attributes: EndpointAttributes, interval: u8)
    ensures
        EndpointDescriptor::with(address, attributes, interval).wire() == seq![
            7u8,
            5,
            address,
            attributes.code(),
            64,
            0,
            interval,
        ],
{
    assert(EndpointDescriptor::with(address, attributes, interval).wire() =~= seq![
        7u8,
        5,
        address,
        attributes.code(),
        64,
        0,
        interval,
    ]);
}

/// Each field of an endpoint descriptor stands at its place.
pub proof fn law_endpoint_fields(descriptor: EndpointDescriptor)
    ensures
        ({
            let wire = descriptor.wire();
            &&& wire.len() == 7
            &&& wire[0] == descriptor.b_length
            &&& wire[1] == descriptor.b_descriptor_type
            &&& wire[2] == descriptor.b_endpoint_address
            &&& wire[3] == descriptor.bm_attributes
            &&& wire[4] + 0x100 * wire[5] == descriptor.w_max_packet_size
            &&& wire[6] == descriptor.b_interval
        }),
{
}

/// The attribute byte of an endpoint holds the transfer type in bits 1:0, the
/// synchronization in bits 3:2 and the usage in bits 5:4; bits 7:6 are clear.
pub proof fn law_endpoint_attributes(attributes: EndpointAttributes)
    ensures
        ({
            let code = attributes.code();
            &&& code & 0x03 == (match attributes.transfer {
                EndpointTransferType::Control => 0x00u8,
                EndpointTransferType::Isochronous => 0x01,
                EndpointTransferType::Bulk => 0x02,
                EndpointTransferType::Interrupt => 0x03,
            })
            &&& code & 0x0c == (match attributes.synchronization {
                EndpointSynchronizationType::Unsynchronized => 0x00u8,
                EndpointSynchronizationType::Asynchronous => 0x04,
                EndpointSynchronizationType::Adaptive => 0x08,
                EndpointSynchronizationType::Synchronous => 0x0c,
            })
            &&& code & 0x30 == (match attributes.usage {
                EndpointUsageType::Data => 0x00u8,
                EndpointUsageType::Feedback => 0x10,
                EndpointUsageType::ImplicitFeedback => 0x20,
                EndpointUsageType::Reserved => 0x30,
            })
            &&& code & 0xc0 == 0
        }),
{
    let code = attributes.code();
    assert(code & 0x03 == code % 4 && code & 0x0c == code / 4 % 4 * 4 && code & 0x30 == code / 16
        % 4 * 16 && code & 0xc0 == code / 64 * 64) by (bit_vector);
}

/// Each field of a HID descriptor stands at its place; the one of the U2F interface
/// announces one report descriptor, of the length that the report descriptor has.
pub proof fn law_hid_descriptor(descriptor: HidDeviceDescriptor)
    ensures
        ({
            let wire = descriptor.wire();
            &&& wire.len() == 9
            &&& wire[0] == descriptor.b_length
            &&& wire[1] == descriptor.b_descriptor_type
            &&& wire[2] + 0x100 * wire[3] == descriptor.bcd_hid
            &&& wire[4] == descriptor.b_country_code
            &&& wire[5] == descriptor.b_num_descriptors
            &&& wire[6] == descriptor.b_report_type
            &&& wire[7] + 0x100 * wire[8] == descriptor.w_report_length
        }),
        HidDeviceDescriptor::u2f().wire() == seq![9u8, 0x21, 0, 1, 0, 1, 0x22, 34, 0],
        u2f_report().len() == 34,
{
    assert(HidDeviceDescriptor::u2f().wire() =~= seq![9u8, 0x21, 0, 1, 0, 1, 0x22, 34, 0]);
}

/// The report descriptor is a collection on the FIDO usage page, of one input and
/// one output report, each of 64 fields of 8 bits from 0 to 255.
pub proof fn law_report_descriptor()
    ensures
        ({
            let report = u2f_report();
            let sizes = seq![0x15u8, 0x00, 0x26, 0xff, 0x00, 0x75, 0x08, 0x95, 0x40];
            &&& report.len() == 34
            &&& report.subrange(0, 7) == seq![0x06u8, 0xd0, 0xf1, 0x09, 0x01, 0xa1, 0x01]
            &&& report.subrange(7, 20) == seq![0x09u8, 0x20] + sizes + seq![0x81u8, 0x02]
            &&& report.subrange(20, 33) == seq![0x09u8, 0x21] + sizes + seq![0x91u8, 0x02]
            &&& report[33] == 0xc0
        }),
{
    let report = u2f_report();
    let sizes = seq![0x15u8, 0x00, 0x26, 0xff, 0x00, 0x75, 0x08, 0x95, 0x40];
    assert(report.subrange(0, 7) =~= seq![0x06u8, 0xd0, 0xf1, 0x09, 0x01, 0xa1, 0x01]);
    assert(report.subrange(7, 20) =~= seq![0x09u8, 0x20] + sizes + seq![0x81u8, 0x02]);
    assert(report.subrange(20, 33) =~= seq![0x09u8, 0x21] + sizes + seq![0x91u8, 0x02]);
}

/// The full configuration descriptor: one bus-powered configuration of 100 mA with
/// string 3, one HID interface with string 6, its HID descriptor, and endpoint 1 in
/// both directions, an interrupt endpoint of 64-byte packets.
pub proof fn law_configuration_bytes()
    ensures
        full_configuration() == seq![9u8, 2, 41, 0, 1, 1, 3, 0x80, 50] + seq![
            9u8,
            4,
            0,
            0,
            2,
            3,
            0,
            0,
            6,
        ] + seq![9u8, 0x21, 0, 1, 0, 1, 0x22, 34, 0] + seq![7u8, 5, 0x01, 3, 64, 0, 2] + seq![
            7u8,
            5,
            0x81,
            3,
            64,
            0,
            2,
        ],
        u2f_interface().wire() == full_configuration().subrange(9, 18),
{
    assert(full_configuration() =~= seq![9u8, 2, 41, 0, 1, 1, 3, 0x80, 50] + seq![
        9u8,
        4,
        0,
        0,
        2,
        3,
        0,
        0,
        6,
    ] + seq![9u8, 0x21, 0, 1, 0, 1, 0x22, 34, 0] + seq![7u8, 5, 0x01, 3, 64, 0, 2] + seq![
        7u8,
        5,
        0x81,
        3,
        64,
        0,
        2,
    ]);
    assert(u2f_interface().wire() =~= full_configuration().subrange(9, 18));
}

/// A string descriptor holds its own length, the kind 3, and then the units of the
/// string, each little-endian.
pub proof fn law_string_descriptor(string: StringDescriptor, i: int)
    requires
        string.wf(),
        0 <= i < string.b_string@.len(),
    ensures
        ({
            let wire = string.wire();
            &&& wire.len() == 2 + 2 * string.b_string@.len()
            &&& wire[0] == wire.len()
            &&& wire[1] == 3
            &&& wire[2 + 2 * i] + 0x100 * wire[3 + 2 * i] == string.b_string@[i]
        }),
{
    assert(string.wire()[2 + 2 * i] == half_bytes(string.b_string@[i])[0]);
    assert(string.wire()[3 + 2 * i] == half_bytes(string.b_string@[i])[1]);
}

/// The descriptor of an empty string is its length and its kind.
pub proof fn law_empty_string(string: StringDescriptor)
    requires
        string.b_string@.len() == 0,
    ensures
        string.wire() == seq![2u8, 3],
{
    assert(string.wire() =~= seq![2u8, 3]);
}

} // verus!
