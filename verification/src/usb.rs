//! The state of the driver.

use vstd::prelude::*;

use crate::constants::{MAX_PACKET_SIZE, STRING_BOARD, STRING_LANG, STRING_VENDOR};
use crate::descriptor::{DeviceDescriptor, StringDescriptor};

verus! {

/// The stage of the control transfer on endpoint 0.
#[derive(Copy, Clone, PartialEq, Eq, Structural, Debug)]
pub enum USBState {
    /// Waiting for a message from the host.
    WaitingForSetupPacket,
    /// Sending data to the host.
    DataStageIn,
    /// Sending a status without data to the host, e.g. in response to a set
    /// command.
    NoDataStage,
}

/// Which physical connection to use.
#[derive(Copy, Clone, PartialEq, Eq, Structural, Debug)]
pub enum PHY {
    A,
    B,
}

/// A descriptor of the DMA engine: status flags and the address of a buffer.
#[derive(Copy, Clone, PartialEq, Eq, Structural, Debug)]
pub struct DMADescriptor {
    pub flags: u32,
    pub addr: u32,
}

/// How a request of the driver's client ended.
#[allow(non_camel_case_types)]
#[derive(Copy, Clone, PartialEq, Eq, Structural, Debug)]
pub enum ReturnCode {
    SUCCESS,
    FAIL,
    EBUSY,
    ESIZE,
}

/// Driver for the Synopsys DesignWare Cores USB 2.0 Hi-Speed On-The-Go
/// controller.
///
/// The driver can enumerate (appear as a device to a host) and exchange data on
/// endpoint 1. It operates as a device in scatter-gather DMA mode and performs
/// the initial handshakes with the host on endpoint 0. A driver that was not
/// initialized appears as a counterfeit flash device (vendor id 0011, product id
/// 7788).
///
/// Scatter-gather mode works on lists of descriptors, each of which points to a
/// buffer of 64 bytes. An IN descriptor is for sending to the host, an OUT
/// descriptor for receiving from it. Endpoint 0 has two OUT descriptors, so that
/// a packet can be received while the one before is processed, and four IN
/// descriptors, over one buffer of 256 bytes.
///
/// Descriptors and buffers live in memory that the DMA engine shares; the driver
/// holds their bus addresses, which exist after a call of `init`.
#[derive(Debug)]
pub struct USB {
    pub state: USBState,
    /// Address of the two OUT descriptors of endpoint 0.
    pub ep0_out_descriptors: Option<u32>,
    /// Address of the two 64-byte OUT buffers of endpoint 0.
    pub ep0_out_buffers: Option<u32>,
    /// Address of the four IN descriptors of endpoint 0.
    pub ep0_in_descriptors: Option<u32>,
    /// Address of the 256-byte IN buffer of endpoint 0.
    pub ep0_in_buffers: Option<u32>,
    /// Which OUT descriptor is set up for reception.
    pub next_ep0_out_idx: usize,
    /// Which OUT descriptor received the most recent packet.
    pub last_ep0_out_idx: usize,
    pub ep1_out_descriptor: Option<u32>,
    pub ep1_out_buffer: Option<u32>,
    pub ep1_in_descriptor: Option<u32>,
    pub ep1_in_buffer: Option<u32>,
    pub device_class: u8,
    pub vendor_id: u16,
    pub product_id: u16,
    /// The bytes of the full configuration descriptor.
    pub configuration_descriptor: Option<[u8; 64]>,
    /// How many of those bytes count.
    pub configuration_total_length: u16,
    /// Which configuration the host has chosen.
    pub configuration_current_value: u8,
    /// The strings that the host may ask for.
    pub strings: Option<Vec<StringDescriptor>>,
    /// Whether there is a U2F client to call back.
    pub u2f_client: bool,
}

/// An object of `size` bytes fits at an address, if it has one.
pub open spec fn fits(addr: Option<u32>, size: int) -> bool {
    addr matches Some(a) ==> a + size <= 0x1_0000_0000
}

/// Each of the strings has a length that its descriptor can hold.
pub open spec fn strings_wf(strings: Seq<StringDescriptor>) -> bool {
    forall|i: int| 0 <= i < strings.len() ==> (#[trigger] strings[i]).wf()
}

impl USB {
    /// Both indices name an OUT descriptor, the shared memory does not wrap
    /// around the end of the address space, and the strings can be encoded.
    pub open spec fn wf(self) -> bool {
        &&& self.next_ep0_out_idx < 2
        &&& self.last_ep0_out_idx < 2
        &&& fits(self.ep0_out_descriptors, 16)
        &&& fits(self.ep0_out_buffers, 128)
        &&& fits(self.ep0_in_descriptors, 32)
        &&& fits(self.ep0_in_buffers, 256)
        &&& self.strings matches Some(strings) ==> strings_wf(strings@)
    }

    /// Nothing has been given to the driver yet: neither memory nor strings nor a
    /// client nor a configuration, and the ids are those of a bad device.
    pub open spec fn is_new(self) -> bool {
        &&& self.state == USBState::WaitingForSetupPacket
        &&& self.ep0_out_descriptors is None && self.ep0_out_buffers is None
        &&& self.ep0_in_descriptors is None && self.ep0_in_buffers is None
        &&& self.ep1_out_descriptor is None && self.ep1_out_buffer is None
        &&& self.ep1_in_descriptor is None && self.ep1_in_buffer is None
        &&& self.next_ep0_out_idx == 0 && self.last_ep0_out_idx == 0
        &&& self.device_class == 0 && self.vendor_id == 0x0011 && self.product_id == 0x7788
        &&& self.configuration_descriptor is None
        &&& self.configuration_total_length == 0 && self.configuration_current_value == 0
        &&& self.strings is None
        &&& !self.u2f_client
    }

    /// A driver without memory, strings or client. `init` has to be called
    /// before it can do anything.
    pub fn new() -> (usb: USB)
        ensures
            usb.wf(),
            usb.is_new(),
            usb == (USB {
                state: USBState::WaitingForSetupPacket,
                ep0_out_descriptors: None,
                ep0_out_buffers: None,
                ep0_in_descriptors: None,
                ep0_in_buffers: None,
                next_ep0_out_idx: 0,
                last_ep0_out_idx: 0,
                ep1_out_descriptor: None,
                ep1_out_buffer: None,
                ep1_in_descriptor: None,
                ep1_in_buffer: None,
                device_class: 0x00,
                vendor_id: 0x0011,
                product_id: 0x7788,
                configuration_descriptor: None,
                configuration_total_length: 0,
                configuration_current_value: 0,
                strings: None,
                u2f_client: false,
            }),
    {
        USB {
            state: USBState::WaitingForSetupPacket,
            ep0_out_descriptors: None,
            ep0_out_buffers: None,
            ep0_in_descriptors: None,
            ep0_in_buffers: None,
            next_ep0_out_idx: 0,
            last_ep0_out_idx: 0,
            ep1_out_descriptor: None,
            ep1_out_buffer: None,
            ep1_in_descriptor: None,
            ep1_in_buffer: None,
            device_class: 0x00,
            // Those of a bad device, to be replaced by `init`.
            vendor_id: 0x0011,
            product_id: 0x7788,
            configuration_descriptor: None,
            configuration_total_length: 0,
            configuration_current_value: 0,
            strings: None,
            u2f_client: false,
        }
    }

    /// The driver with another number of bytes of the configuration descriptor that
    /// count.
    pub open spec fn with_total_length(self, length: u16) -> USB {
        USB { configuration_total_length: length, ..self }
    }

    /// How many bytes of the configuration descriptor count.
    pub open spec fn total_length(self) -> u16 {
        self.configuration_total_length
    }

    /// Sets how many bytes of the configuration descriptor count.
    pub fn set_configuration_total_length(&mut self, length: u16)
        ensures
            *final(self) == (USB { configuration_total_length: length, ..*old(self) }),
            *final(self) == old(self).with_total_length(length),
    {
        self.configuration_total_length = length;
    }

    /// How many bytes of the configuration descriptor count.
    pub fn get_configuration_total_length(&self) -> (length: u16)
        ensures
            length == self.configuration_total_length,
            length == self.total_length(),
    {
        self.configuration_total_length
    }

    /// The device descriptor that the driver's parameters make.
    pub open spec fn device_descriptor(self) -> DeviceDescriptor {
        DeviceDescriptor {
            b_length: 18,
            b_descriptor_type: 1,
            bcd_usb: 0x0200,
            b_device_class: self.device_class,
            b_device_sub_class: 0x00,
            b_device_protocol: 0x00,
            b_max_packet_size0: 64,
            id_vendor: self.vendor_id,
            id_product: self.product_id,
            bcd_device: 0x0100,
            i_manufacturer: STRING_VENDOR,
            i_product: STRING_BOARD,
            i_serial_number: STRING_LANG,
            b_num_configurations: 1,
        }
    }

    /// Makes the device descriptor from the driver's parameters.
    pub fn generate_device_descriptor(&self) -> (r: DeviceDescriptor)
        ensures
            r == self.device_descriptor(),
            r.b_device_class == self.device_class,
            r.id_vendor == self.vendor_id,
            r.id_product == self.product_id,
    {
        DeviceDescriptor {
            b_length: 18,
            b_descriptor_type: 1,
            bcd_usb: 0x0200,
            b_device_class: self.device_class,
            b_device_sub_class: 0x00,
            b_device_protocol: 0x00,
            b_max_packet_size0: MAX_PACKET_SIZE as u8,
            id_vendor: self.vendor_id,
            id_product: self.product_id,
            bcd_device: 0x0100,
            i_manufacturer: STRING_VENDOR,
            i_product: STRING_BOARD,
            i_serial_number: STRING_LANG,
            b_num_configurations: 1,
        }
    }
}

} // verus!
