use h1_usb::bytes::{pack_word, unpack_byte};
use h1_usb::descriptor::{
    u2f_report_descriptor, ConfigurationDescriptor, EndpointAttributes, EndpointDescriptor,
    EndpointSynchronizationType, EndpointTransferType, EndpointUsageType, HidDeviceDescriptor,
    InterfaceDescriptor, StringDescriptor,
};
use h1_usb::request::{
    Descriptor, SetupClassRequestType, SetupDirection, SetupRecipient, SetupRequest,
    SetupRequestClass, SetupRequestType,
};
use h1_usb::usb::USB;

#[test]
fn packing() {
    let bytes = [1u8, 2, 3, 4, 5, 6];
    assert_eq!(pack_word(&bytes, 0), 0x0403_0201);
    assert_eq!(pack_word(&bytes, 1), 0x0000_0605);
    let words = [0x0403_0201u32, 0xff00_0605];
    for i in 0..6 {
        assert_eq!(unpack_byte(&words, i), bytes[i]);
    }
    assert_eq!(unpack_byte(&words, 7), 0xff);
}

#[test]
fn device_descriptor_of_an_uninitialized_driver() {
    let d = USB::new().generate_device_descriptor();
    assert_eq!(
        d.to_bytes(),
        vec![18, 1, 0x00, 0x02, 0, 0, 0, 64, 0x11, 0x00, 0x88, 0x77, 0x00, 0x01, 1, 2, 0, 1]
    );
}

#[test]
fn configuration_descriptor() {
    let mut c = ConfigurationDescriptor::new(1, 3, 50);
    assert_eq!(c.to_bytes(), vec![9, 2, 9, 0, 1, 1, 3, 0x80, 50]);
    c.set_total_length(0x0129);
    assert_eq!(c.to_bytes(), vec![9, 2, 0x29, 0x01, 1, 1, 3, 0x80, 50]);
}

#[test]
fn interface_descriptor() {
    let i = InterfaceDescriptor::new(6, 0, 3, 0, 0);
    assert_eq!(i.to_bytes(), vec![9, 4, 0, 0, 2, 3, 0, 0, 6]);
    let shell = InterfaceDescriptor::new(4, 1, 0xff, 80, 1);
    assert_eq!(shell.to_bytes(), vec![9, 4, 1, 0, 2, 0xff, 80, 1, 4]);
}

#[test]
fn endpoint_descriptor() {
    let attributes = EndpointAttributes {
        transfer: EndpointTransferType::Interrupt,
        synchronization: EndpointSynchronizationType::Unsynchronized,
        usage: EndpointUsageType::Data,
    };
    let e = EndpointDescriptor::new(0x81, attributes, 2);
    assert_eq!(e.to_bytes(), vec![7, 5, 0x81, 3, 64, 0, 2]);
    let odd = EndpointAttributes {
        transfer: EndpointTransferType::Bulk,
        synchronization: EndpointSynchronizationType::Adaptive,
        usage: EndpointUsageType::Feedback,
    };
    assert_eq!(odd.to_byte(), 0b01_10_10);
}

#[test]
fn hid_descriptor_names_the_report_descriptor() {
    assert_eq!(HidDeviceDescriptor::new().to_bytes(), vec![9, 0x21, 0, 1, 0, 1, 0x22, 34, 0]);
    let report = u2f_report_descriptor();
    assert_eq!(report.len(), 34);
    assert_eq!(report[0..5], [0x06, 0xd0, 0xf1, 0x09, 0x01]);
    assert_eq!(report[33], 0xc0);
}

#[test]
fn string_descriptor() {
    let s = StringDescriptor { b_string: vec![0x0409] };
    assert_eq!(s.to_bytes(), vec![4, 3, 0x09, 0x04]);
    let empty = StringDescriptor { b_string: vec![] };
    assert_eq!(empty.to_bytes(), vec![2, 3]);
    let longest = StringDescriptor { b_string: vec![0x0141; 126] };
    let bytes = longest.to_bytes();
    assert_eq!(bytes.len(), 254);
    assert_eq!(bytes[0], 254);
    assert_eq!(bytes[252..254], [0x41, 0x01]);
}

#[test]
fn setup_request_fields() {
    let mut buf = [0u32; 16];
    // 80 06 00 01 34 12 40 00
    buf[0] = 0x0100_0680;
    buf[1] = 0x0040_1234;
    buf[2] = 0xffff_ffff;
    let r = SetupRequest::new(&buf);
    assert_eq!(r.bm_request_type, 0x80);
    assert_eq!(r.b_request, 6);
    assert_eq!(r.w_value, 0x0100);
    assert_eq!(r.w_index, 0x1234);
    assert_eq!(r.w_length, 64);
    assert_eq!(r.value(), 0x0100);
    assert_eq!(r.length(), 64);
    assert_eq!(r.req_type(), SetupRequestClass::Standard);
    assert_eq!(r.recipient(), SetupRecipient::Device);
    assert_eq!(r.data_direction(), SetupDirection::DeviceToHost);
    assert_eq!(r.request(), SetupRequestType::GetDescriptor);
}

#[test]
fn setup_request_kinds() {
    let with = |bm_request_type: u8, b_request: u8| SetupRequest {
        bm_request_type,
        b_request,
        w_value: 0,
        w_index: 0,
        w_length: 0,
    };
    assert_eq!(with(0x21, 10).req_type(), SetupRequestClass::Class);
    assert_eq!(with(0x21, 10).recipient(), SetupRecipient::Interface);
    assert_eq!(with(0x21, 10).data_direction(), SetupDirection::HostToDevice);
    assert_eq!(with(0x21, 10).class_request(), SetupClassRequestType::SetIdle);
    assert_eq!(with(0x21, 4).class_request(), SetupClassRequestType::Undefined);
    assert_eq!(with(0xc2, 0).req_type(), SetupRequestClass::Vendor);
    assert_eq!(with(0xc2, 0).recipient(), SetupRecipient::Endpoint);
    assert_eq!(with(0x63, 0).req_type(), SetupRequestClass::Other);
    assert_eq!(with(0x63, 0).recipient(), SetupRecipient::Other);
    assert_eq!(with(0x04, 0).recipient(), SetupRecipient::Reserved);
    assert_eq!(with(0, 2).request(), SetupRequestType::Undefined);
    assert_eq!(with(0, 12).request(), SetupRequestType::SynchFrame);
}

#[test]
fn descriptor_kinds() {
    assert_eq!(Descriptor::from_u8(1), Descriptor::Device);
    assert_eq!(Descriptor::from_u8(0x22), Descriptor::Report);
    assert_eq!(Descriptor::from_u8(0), Descriptor::Unknown);
    assert_eq!(Descriptor::from_u8(0xff), Descriptor::Unknown);
}
