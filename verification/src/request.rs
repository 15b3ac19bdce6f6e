//! SETUP packets.

use vstd::prelude::*;

use crate::bytes::bytes_of;

verus! {

/// Which document defines a request.
#[derive(Copy, Clone, PartialEq, Eq, Structural, Debug)]
pub enum SetupRequestClass {
    Standard,
    Class,
    Vendor,
    Other,
}

/// What part of the device a request is for.
#[derive(Copy, Clone, PartialEq, Eq, Structural, Debug)]
pub enum SetupRecipient {
    Device,
    Interface,
    Endpoint,
    Other,
    Reserved,
}

/// Which way the data of a request goes.
#[derive(Copy, Clone, PartialEq, Eq, Structural, Debug)]
pub enum SetupDirection {
    HostToDevice,
    DeviceToHost,
}

/// The standard request codes.
#[derive(Copy, Clone, PartialEq, Eq, Structural, Debug)]
pub enum SetupRequestType {
    GetStatus,
    ClearFeature,
    SetFeature,
    SetAddress,
    GetDescriptor,
    SetDescriptor,
    GetConfiguration,
    SetConfiguration,
    GetInterface,
    SetInterface,
    SynchFrame,
    Undefined,
}

/// The request codes of the HID class.
#[derive(Copy, Clone, PartialEq, Eq, Structural, Debug)]
pub enum SetupClassRequestType {
    GetReport,
    GetIdle,
    GetProtocol,
    SetReport,
    SetIdle,
    SetProtocol,
    Undefined,
}

/// The kinds of USB descriptors.
#[derive(Copy, Clone, PartialEq, Eq, Structural, Debug)]
pub enum Descriptor {
    Device,
    Configuration,
    String,
    Interface,
    Endpoint,
    DeviceQualifier,
    OtherSpeedConfiguration,
    InterfacePower,
    HidDevice,
    Report,
    Physical,
    Unknown,
}

impl Descriptor {
    /// The kind that a descriptor type code stands for.
    pub open spec fn of(code: u8) -> Descriptor {
        match code {
            0x01 => Descriptor::Device,
            0x02 => Descriptor::Configuration,
            0x03 => Descriptor::String,
            0x04 => Descriptor::Interface,
            0x05 => Descriptor::Endpoint,
            0x06 => Descriptor::DeviceQualifier,
            0x07 => Descriptor::OtherSpeedConfiguration,
            0x08 => Descriptor::InterfacePower,
            0x21 => Descriptor::HidDevice,
            0x22 => Descriptor::Report,
            0x23 => Descriptor::Physical,
            _ => Descriptor::Unknown,
        }
    }

    /// The kind that a descriptor type code stands for.
    pub fn from_u8(code: u8) -> (kind: Descriptor)
        ensures
            kind == Descriptor::of(code),
    {
        match code {
            0x01 => Descriptor::Device,
            0x02 => Descriptor::Configuration,
            0x03 => Descriptor::String,
            0x04 => Descriptor::Interface,
            0x05 => Descriptor::Endpoint,
            0x06 => Descriptor::DeviceQualifier,
            0x07 => Descriptor::OtherSpeedConfiguration,
            0x08 => Descriptor::InterfacePower,
            0x21 => Descriptor::HidDevice,
            0x22 => Descriptor::Report,
            0x23 => Descriptor::Physical,
            _ => Descriptor::Unknown,
        }
    }
}

/// A request that the host made in a SETUP packet.
#[derive(Copy, Clone, PartialEq, Eq, Structural, Debug)]
pub struct SetupRequest {
    pub bm_request_type: u8,
    pub b_request: u8,
    pub w_value: u16,
    pub w_index: u16,
    pub w_length: u16,
}

impl SetupRequest {
    /// The request that the eight bytes of a SETUP packet hold.
    pub open spec fn parse(packet: Seq<u8>) -> SetupRequest {
        SetupRequest {
            bm_request_type: packet[0],
            b_request: packet[1],
            w_value: (packet[2] + 0x100 * packet[3]) as u16,
            w_index: (packet[4] + 0x100 * packet[5]) as u16,
            w_length: (packet[6] + 0x100 * packet[7]) as u16,
        }
    }

    /// Bits 6:5 of the request type.
    pub open spec fn class(self) -> SetupRequestClass {
        match self.bm_request_type / 0x20 % 4 {
            0 => SetupRequestClass::Standard,
            1 => SetupRequestClass::Class,
            2 => SetupRequestClass::Vendor,
            _ => SetupRequestClass::Other,
        }
    }

    /// Bits 4:0 of the request type.
    pub open spec fn target(self) -> SetupRecipient {
        match self.bm_request_type % 0x20 {
            0 => SetupRecipient::Device,
            1 => SetupRecipient::Interface,
            2 => SetupRecipient::Endpoint,
            3 => SetupRecipient::Other,
            _ => SetupRecipient::Reserved,
        }
    }

    /// Bit 7 of the request type.
    pub open spec fn direction(self) -> SetupDirection {
        if self.bm_request_type < 0x80 {
            SetupDirection::HostToDevice
        } else {
            SetupDirection::DeviceToHost
        }
    }

    /// The meaning of the request code in a standard request.
    pub open spec fn standard_code(self) -> SetupRequestType {
        match self.b_request {
            0 => SetupRequestType::GetStatus,
            1 => SetupRequestType::ClearFeature,
            3 => SetupRequestType::SetFeature,
            5 => SetupRequestType::SetAddress,
            6 => SetupRequestType::GetDescriptor,
            7 => SetupRequestType::SetDescriptor,
            8 => SetupRequestType::GetConfiguration,
            9 => SetupRequestType::SetConfiguration,
            10 => SetupRequestType::GetInterface,
            11 => SetupRequestType::SetInterface,
            12 => SetupRequestType::SynchFrame,
            _ => SetupRequestType::Undefined,
        }
    }

    /// The meaning of the request code in a HID class request.
    pub open spec fn class_code(self) -> SetupClassRequestType {
        match self.b_request {
            1 => SetupClassRequestType::GetReport,
            2 => SetupClassRequestType::GetIdle,
            3 => SetupClassRequestType::GetProtocol,
            9 => SetupClassRequestType::SetReport,
            10 => SetupClassRequestType::SetIdle,
            11 => SetupClassRequestType::SetProtocol,
            _ => SetupClassRequestType::Undefined,
        }
    }

    /// The high byte of the value: the descriptor type of a GET_DESCRIPTOR.
    pub open spec fn value_high(self) -> u8 {
        (self.w_value / 0x100) as u8
    }

    /// The low byte of the value: the descriptor index of a GET_DESCRIPTOR.
    pub open spec fn value_low(self) -> u8 {
        (self.w_value % 0x100) as u8
    }

    /// Reads the request from the buffer that received a SETUP packet.
    pub fn new(buf: &[u32; 16]) -> (request: SetupRequest)
        ensures
            request == SetupRequest::parse(bytes_of(buf@)),
            request.bm_request_type == buf@[0] & 0xff,
            request.b_request == (buf@[0] >> 8) & 0xff,
            request.w_value == buf@[0] >> 16,
            request.w_index == buf@[1] & 0xffff,
            request.w_length == buf@[1] >> 16,
    {
        let w0: u32 = buf[0];
        let w1: u32 = buf[1];
        let bm_request_type: u32 = w0 & 0xff;
        let b_request: u32 = (w0 >> 8) & 0xff;
        let w_value: u32 = w0 >> 16;
        let w_index: u32 = w1 & 0xffff;
        let w_length: u32 = w1 >> 16;
        assert(bm_request_type == w0 % 0x100 && b_request == w0 / 0x100 % 0x100 && w_value == w0
            / 0x1_0000) by (bit_vector)
            requires
                bm_request_type == w0 & 0xff,
                b_request == (w0 >> 8) & 0xff,
                w_value == w0 >> 16,
        ;
        assert(w_index == w1 % 0x1_0000 && w_length == w1 / 0x1_0000) by (bit_vector)
            requires
                w_index == w1 & 0xffff,
                w_length == w1 >> 16,
        ;
        proof {
            let b = bytes_of(buf@);
            assert(b[0] == w0 % 0x100 && b[1] == w0 / 0x100 % 0x100);
            assert(b[2] == w0 / 0x1_0000 % 0x100 && b[3] == w0 / 0x100_0000);
            assert(b[4] == w1 % 0x100 && b[5] == w1 / 0x100 % 0x100);
            assert(b[6] == w1 / 0x1_0000 % 0x100 && b[7] == w1 / 0x100_0000);
        }
        SetupRequest {
            bm_request_type: bm_request_type as u8,
            b_request: b_request as u8,
            w_value: w_value as u16,
            w_index: w_index as u16,
            w_length: w_length as u16,
        }
    }

    /// Which document defines the request.
    pub fn req_type(&self) -> (r: SetupRequestClass)
        ensures
            r == self.class(),
    {
        match self.bm_request_type / 0x20 % 4 {
            0 => SetupRequestClass::Standard,
            1 => SetupRequestClass::Class,
            2 => SetupRequestClass::Vendor,
            _ => SetupRequestClass::Other,
        }
    }

    /// What part of the device the request is for.
    pub fn recipient(&self) -> (r: SetupRecipient)
        ensures
            r == self.target(),
    {
        match self.bm_request_type % 0x20 {
            0 => SetupRecipient::Device,
            1 => SetupRecipient::Interface,
            2 => SetupRecipient::Endpoint,
            3 => SetupRecipient::Other,
            _ => SetupRecipient::Reserved,
        }
    }

    /// Which way the data of the request goes.
    pub fn data_direction(&self) -> (r: SetupDirection)
        ensures
            r == self.direction(),
    {
        if self.bm_request_type < 0x80 {
            SetupDirection::HostToDevice
        } else {
            SetupDirection::DeviceToHost
        }
    }

    /// The request code, read as that of a standard request.
    pub fn request(&self) -> (r: SetupRequestType)
        ensures
            r == self.standard_code(),
    {
        match self.b_request {
            0 => SetupRequestType::GetStatus,
            1 => SetupRequestType::ClearFeature,
            3 => SetupRequestType::SetFeature,
            5 => SetupRequestType::SetAddress,
            6 => SetupRequestType::GetDescriptor,
            7 => SetupRequestType::SetDescriptor,
            8 => SetupRequestType::GetConfiguration,
            9 => SetupRequestType::SetConfiguration,
            10 => SetupRequestType::GetInterface,
            11 => SetupRequestType::SetInterface,
            12 => SetupRequestType::SynchFrame,
            _ => SetupRequestType::Undefined,
        }
    }

    /// The request code, read as that of a HID class request.
    pub fn class_request(&self) -> (r: SetupClassRequestType)
        ensures
            r == self.class_code(),
    {
        match self.b_request {
            1 => SetupClassRequestType::GetReport,
            2 => SetupClassRequestType::GetIdle,
            3 => SetupClassRequestType::GetProtocol,
            9 => SetupClassRequestType::SetReport,
            10 => SetupClassRequestType::SetIdle,
            11 => SetupClassRequestType::SetProtocol,
            _ => SetupClassRequestType::Undefined,
        }
    }

    /// The value field.
    pub fn value(&self) -> (r: u16)
        ensures
            r == self.w_value,
    {
        self.w_value
    }

    /// The length field.
    pub fn length(&self) -> (r: u16)
        ensures
            r == self.w_length,
    {
        self.w_length
    }
}

} // verus!
