//! The requests that the host makes in SETUP packets.

use vstd::prelude::*;

use crate::action::{push_bytes, store_words, Action, Buffer, DmaSlot, Register};
use crate::bytes::{bytes_of, words_of};
use crate::constants::{
    DESC_HOST_READY, DESC_IOC, DESC_LAST, DESC_SHORT, DEVICE_CONFIG_ADDRESS,
    GET_DESCRIPTOR_CONFIGURATION, GET_DESCRIPTOR_DEVICE, GET_DESCRIPTOR_DEVICE_QUALIFIER,
    GET_DESCRIPTOR_INTERFACE, GET_DESCRIPTOR_STRING, STRING_INTERFACE2,
};
use crate::descriptor::{u2f_report, u2f_report_descriptor, InterfaceDescriptor};
use crate::endpoint0::{send_flags, with_bytes};
use crate::interrupt::TableCase;
use crate::request::{
    Descriptor, SetupClassRequestType, SetupDirection, SetupRecipient, SetupRequest,
    SetupRequestClass, SetupRequestType,
};
use crate::usb::{USBState, USB};

verus! {

/// The smaller of a reply's length and the length that the host asked for.
pub open spec fn reply_length(len: int, w_length: u16) -> u16 {
    if len < w_length {
        len as u16
    } else {
        w_length
    }
}

/// The interface descriptor of the U2F interface.
pub open spec fn u2f_interface() -> InterfaceDescriptor {
    InterfaceDescriptor::with(STRING_INTERFACE2, 0, 0x03, 0, 0)
}

impl USB {
    /// What sets the flags of the first IN descriptor for `bytes` bytes.
    pub open spec fn arm_in(self, bytes: u16) -> Seq<Action> {
        if self.ep0_in_descriptors is Some {
            seq![Action::SetFlags { slot: DmaSlot::Ep0In(0), flags: send_flags(bytes) }]
        } else {
            seq![]
        }
    }

    /// What answers with the first bytes of the IN buffer, into which `data` is
    /// stored before: as many as `len` and `w_length` both allow. Without an IN
    /// buffer there is nothing to store, and the answer is empty.
    pub open spec fn reply_actions(
        self,
        transfer_type: TableCase,
        data: Seq<u8>,
        len: int,
        w_length: u16,
    ) -> Seq<Action> {
        if self.ep0_in_buffers is Some {
            store_words(Buffer::Ep0In, words_of(data)) + self.arm_in(reply_length(len, w_length))
                + self.data_phase_actions(transfer_type)
        } else {
            self.arm_in(0) + self.data_phase_actions(transfer_type)
        }
    }

    /// The driver and its actions after it replied with all of `data`.
    pub open spec fn replied(self, transfer_type: TableCase, data: Seq<u8>, w_length: u16) -> (
        USB,
        Seq<Action>,
    ) {
        (
            self.in_state(USBState::DataStageIn),
            self.reply_actions(transfer_type, data, data.len() as int, w_length),
        )
    }

    /// The driver and its actions after it stalled endpoint 0.
    pub open spec fn stalled(self) -> (USB, Seq<Action>) {
        (self.in_state(USBState::WaitingForSetupPacket), self.stall_actions())
    }

    /// What becomes of a GET_DESCRIPTOR request to the device, by the type of
    /// the descriptor. A request that is not understood is stalled.
    pub open spec fn get_descriptor_result(
        self,
        transfer_type: TableCase,
        request: SetupRequest,
    ) -> (USB, Seq<Action>) {
        let kind = request.value_high() as u32;
        if kind == GET_DESCRIPTOR_DEVICE {
            self.replied(transfer_type, self.device_descriptor().wire(), request.w_length)
        } else if kind == GET_DESCRIPTOR_CONFIGURATION {
            match self.configuration_descriptor {
                Some(configuration) => (
                    self.in_state(USBState::DataStageIn),
                    self.reply_actions(
                        transfer_type,
                        configuration@,
                        self.configuration_total_length as int,
                        request.w_length,
                    ),
                ),
                None => self.replied(transfer_type, Seq::empty(), request.w_length),
            }
        } else if kind == GET_DESCRIPTOR_INTERFACE {
            self.replied(transfer_type, u2f_interface().wire(), request.w_length)
        } else if kind == GET_DESCRIPTOR_STRING {
            match self.strings {
                Some(strings) => self.replied(
                    transfer_type,
                    strings@[request.value_low() as int].wire(),
                    request.w_length,
                ),
                None => (self, seq![]),
            }
        } else {
            self.stalled()
        }
    }

    /// What becomes of a standard request for data of the device.
    pub open spec fn device_to_host_result(
        self,
        transfer_type: TableCase,
        request: SetupRequest,
    ) -> (USB, Seq<Action>) {
        match request.standard_code() {
            SetupRequestType::GetDescriptor => self.get_descriptor_result(transfer_type, request),
            SetupRequestType::GetConfiguration => self.replied(
                transfer_type,
                seq![self.configuration_current_value],
                request.w_length,
            ),
            // Neither self-powered nor able to wake the host up.
            SetupRequestType::GetStatus => self.replied(
                transfer_type,
                seq![0u8, 0u8],
                request.w_length,
            ),
            _ => (self, seq![]),
        }
    }

    /// What becomes of a standard request for data of an interface: the report
    /// descriptor.
    pub open spec fn interface_to_host_result(
        self,
        transfer_type: TableCase,
        request: SetupRequest,
    ) -> (USB, Seq<Action>) {
        if self.ep0_in_buffers is Some {
            self.replied(transfer_type, u2f_report(), request.w_length)
        } else {
            (self, seq![])
        }
    }

    /// What becomes of a standard request to the device without data.
    pub open spec fn no_data_phase_result(
        self,
        transfer_type: TableCase,
        request: SetupRequest,
    ) -> (USB, Seq<Action>) {
        match request.standard_code() {
            SetupRequestType::SetAddress => (
                self.in_state(USBState::NoDataStage),
                seq![
                    Action::Modify {
                        register: Register::DeviceConfig,
                        clear: DEVICE_CONFIG_ADDRESS,
                        set: (0x10 * (request.w_value % 0x80)) as u32,
                    },
                ] + self.setup_u2f_actions() + self.status_phase_actions(transfer_type),
            ),
            SetupRequestType::SetConfiguration => (
                USB {
                    state: USBState::NoDataStage,
                    configuration_current_value: request.value_low(),
                    ..self
                },
                self.status_phase_actions(transfer_type),
            ),
            _ => (self, seq![]),
        }
    }

    /// Whether a standard request for data of the device is one that the driver
    /// knows how to handle.
    pub open spec fn device_to_host_supported(self, request: SetupRequest) -> bool {
        match request.standard_code() {
            SetupRequestType::GetDescriptor => {
                request.value_high() == GET_DESCRIPTOR_STRING && self.strings is Some
                    ==> request.value_low() < self.strings->0@.len()
            },
            SetupRequestType::GetConfiguration => true,
            SetupRequestType::GetStatus => true,
            _ => false,
        }
    }

    /// Whether a request is one that the driver handles, if only by ignoring it.
    /// The others are fatal.
    pub open spec fn supports(self, request: SetupRequest) -> bool {
        let to_host = request.direction() == SetupDirection::DeviceToHost;
        match (request.class(), request.target()) {
            (SetupRequestClass::Standard, SetupRecipient::Device) => if to_host {
                self.device_to_host_supported(request)
            } else {
                &&& request.w_length == 0
                &&& {
                    ||| request.standard_code() == SetupRequestType::SetAddress
                    ||| request.standard_code() == SetupRequestType::SetConfiguration
                }
            },
            (SetupRequestClass::Standard, SetupRecipient::Interface) => {
                &&& to_host
                &&& request.standard_code() == SetupRequestType::GetDescriptor
                &&& Descriptor::of(request.value_high()) == Descriptor::Report
                &&& request.w_length == u2f_report().len()
            },
            (SetupRequestClass::Class, SetupRecipient::Interface) => {
                &&& !to_host
                &&& request.class_code() == SetupClassRequestType::SetIdle
            },
            _ => true,
        }
    }

    /// What becomes of a request that the driver supports.
    pub open spec fn request_result(self, transfer_type: TableCase, request: SetupRequest) -> (
        USB,
        Seq<Action>,
    ) {
        let to_host = request.direction() == SetupDirection::DeviceToHost;
        match (request.class(), request.target()) {
            (SetupRequestClass::Standard, SetupRecipient::Device) => if to_host {
                self.device_to_host_result(transfer_type, request)
            } else {
                self.no_data_phase_result(transfer_type, request)
            },
            (SetupRequestClass::Standard, SetupRecipient::Interface) =>
                self.interface_to_host_result(transfer_type, request),
            (SetupRequestClass::Class, SetupRecipient::Interface) => self.stalled(),
            _ => (self, seq![]),
        }
    }

    /// Whether the driver handles a request, if only by ignoring it.
    pub fn supports_request(&self, request: &SetupRequest) -> (r: bool)
        ensures
            r == self.supports(*request),
    {
        let class: SetupRequestClass = request.req_type();
        let recipient: SetupRecipient = request.recipient();
        let to_host: bool = request.data_direction() == SetupDirection::DeviceToHost;
        if class == SetupRequestClass::Standard && recipient == SetupRecipient::Device {
            if to_host {
                match request.request() {
                    SetupRequestType::GetDescriptor => {
                        if (request.w_value / 0x100) as u32 == GET_DESCRIPTOR_STRING {
                            match &self.strings {
                                Some(strings) => ((request.w_value % 0x100) as usize)
                                    < strings.len(),
                                None => true,
                            }
                        } else {
                            true
                        }
                    },
                    SetupRequestType::GetConfiguration => true,
                    SetupRequestType::GetStatus => true,
                    _ => false,
                }
            } else {
                request.w_length == 0 && (request.request() == SetupRequestType::SetAddress
                    || request.request() == SetupRequestType::SetConfiguration)
            }
        } else if class == SetupRequestClass::Standard && recipient == SetupRecipient::Interface {
            to_host && request.request() == SetupRequestType::GetDescriptor
                && Descriptor::from_u8((request.w_value / 0x100) as u8) == Descriptor::Report
                && request.w_length as usize == u2f_report_descriptor().len()
        } else if class == SetupRequestClass::Class && recipient == SetupRecipient::Interface {
            !to_host && request.class_request() == SetupClassRequestType::SetIdle
        } else {
            true
        }
    }

    /// Announces `bytes` bytes in the IN buffer and starts the data phase.
    fn send_reply(&mut self, transfer_type: TableCase, bytes: u16, out: &mut Vec<Action>)
        ensures
            *final(self) == old(self).in_state(USBState::DataStageIn),
            final(out)@ == old(out)@ + old(self).arm_in(bytes) + old(self).data_phase_actions(
                transfer_type,
            ),
    {
        if self.ep0_in_descriptors.is_some() {
            out.push(
                Action::SetFlags {
                    slot: DmaSlot::Ep0In(0),
                    flags: with_bytes(
                        DESC_HOST_READY | DESC_LAST | DESC_SHORT | DESC_IOC,
                        bytes,
                    ),
                },
            );
        }
        self.expect_data_phase_in(transfer_type, out);
    }

    /// Replies with the first bytes of `data`, at most `w_length`.
    fn reply(
        &mut self,
        transfer_type: TableCase,
        data: &[u8],
        w_length: u16,
        out: &mut Vec<Action>,
    )
        ensures
            *final(self) == old(self).replied(transfer_type, data@, w_length).0,
            final(out)@ == old(out)@ + old(self).replied(transfer_type, data@, w_length).1,
    {
        let mut len: u16 = 0;
        if self.ep0_in_buffers.is_some() {
            push_bytes(Buffer::Ep0In, data, out);
            len = if data.len() < w_length as usize { data.len() as u16 } else { w_length };
        }
        self.send_reply(transfer_type, len, out);
    }

    /// Handles requests for data from the device to the host: the device,
    /// configuration, interface and string descriptors, the current
    /// configuration and the device status.
    pub fn handle_standard_device_to_host(
        &mut self,
        transfer_type: TableCase,
        request: &SetupRequest,
        out: &mut Vec<Action>,
    )
        requires
            old(self).wf(),
            old(self).device_to_host_supported(*request),
        ensures
            final(self).wf(),
            *final(self) == old(self).device_to_host_result(transfer_type, *request).0,
            final(out)@ == old(out)@ + old(self).device_to_host_result(transfer_type, *request).1,
    {
        match request.request() {
            SetupRequestType::GetDescriptor => {
                let descriptor_type: u32 = (request.w_value / 0x100) as u32;
                if descriptor_type == GET_DESCRIPTOR_DEVICE {
                    let data: Vec<u8> = self.generate_device_descriptor().to_bytes();
                    self.reply(transfer_type, data.as_slice(), request.w_length, out);
                } else if descriptor_type == GET_DESCRIPTOR_CONFIGURATION {
                    let mut len: u16 = 0;
                    if self.ep0_in_buffers.is_some() {
                        if let Some(configuration) = &self.configuration_descriptor {
                            push_bytes(Buffer::Ep0In, configuration, out);
                            len = self.get_configuration_total_length();
                        }
                    }
                    if len > request.w_length {
                        len = request.w_length;
                    }
                    self.send_reply(transfer_type, len, out);
                    assert(store_words(Buffer::Ep0In, words_of(Seq::empty())) =~= seq![]);
                } else if descriptor_type == GET_DESCRIPTOR_INTERFACE {
                    let data: Vec<u8> = InterfaceDescriptor::new(
                        STRING_INTERFACE2,
                        0,
                        0x03,
                        0,
                        0,
                    ).to_bytes();
                    self.reply(transfer_type, data.as_slice(), request.w_length, out);
                } else if descriptor_type == GET_DESCRIPTOR_DEVICE_QUALIFIER {
                    self.stall_both_fifos(out);
                } else if descriptor_type == GET_DESCRIPTOR_STRING {
                    let index: usize = (request.w_value % 0x100) as usize;
                    let mut string: Option<Vec<u8>> = None;
                    if let Some(strings) = &self.strings {
                        string = Some(strings[index].to_bytes());
                    }
                    if let Some(data) = string {
                        self.reply(transfer_type, data.as_slice(), request.w_length, out);
                    }
                } else {
                    // A request that is not understood should be answered with
                    // an error; a stall is one.
                    self.stall_both_fifos(out);
                }
            },
            SetupRequestType::GetConfiguration => {
                let data: [u8; 1] = [self.configuration_current_value];
                assert(data@ =~= seq![self.configuration_current_value]);
                self.reply(transfer_type, &data, request.w_length, out);
            },
            SetupRequestType::GetStatus => {
                let data: [u8; 2] = [0, 0];
                assert(data@ =~= seq![0u8, 0u8]);
                self.reply(transfer_type, &data, request.w_length, out);
            },
            _ => {},
        }
    }

    /// Responds to a request for data of an interface: a GET_DESCRIPTOR for the
    /// report descriptor, of its exact length.
    pub fn handle_standard_interface_to_host(
        &mut self,
        transfer_type: TableCase,
        request: &SetupRequest,
        out: &mut Vec<Action>,
    )
        requires
            old(self).wf(),
            request.standard_code() == SetupRequestType::GetDescriptor,
            Descriptor::of(request.value_high()) == Descriptor::Report,
            request.w_length == u2f_report().len(),
        ensures
            final(self).wf(),
            *final(self) == old(self).interface_to_host_result(transfer_type, *request).0,
            final(out)@ == old(out)@ + old(self).interface_to_host_result(
                transfer_type,
                *request,
            ).1,
    {
        if self.ep0_in_buffers.is_some() {
            let data: [u8; 34] = u2f_report_descriptor();
            self.reply(transfer_type, &data, request.w_length, out);
        }
    }

    /// Handles a HID class request to an interface from the host: SET_IDLE,
    /// which is stalled.
    pub fn handle_class_host_to_interface(
        &mut self,
        request: &SetupRequest,
        out: &mut Vec<Action>,
    )
        requires
            old(self).wf(),
            request.class_code() == SetupClassRequestType::SetIdle,
        ensures
            final(self).wf(),
            *final(self) == old(self).stalled().0,
            final(out)@ == old(out)@ + old(self).stalled().1,
    {
        self.stall_both_fifos(out);
    }

    /// Handles requests with no data phase: setting the address of the device,
    /// and which of its configurations to use.
    pub fn handle_standard_no_data_phase(
        &mut self,
        transfer_type: TableCase,
        request: &SetupRequest,
        out: &mut Vec<Action>,
    )
        requires
            old(self).wf(),
            request.standard_code() == SetupRequestType::SetAddress || request.standard_code()
                == SetupRequestType::SetConfiguration,
        ensures
            final(self).wf(),
            *final(self) == old(self).no_data_phase_result(transfer_type, *request).0,
            final(out)@ == old(out)@ + old(self).no_data_phase_result(transfer_type, *request).1,
    {
        match request.request() {
            SetupRequestType::SetAddress => {
                // Even though USB wants the address to be set after the IN
                // packet handshake, the hardware knows to wait, so it is set now.
                let w_value: u16 = request.w_value;
                let set: u32 = ((w_value & 0x7f) as u32) << 4;
                assert(set == 0x10 * (w_value % 0x80)) by (bit_vector)
                    requires
                        set == ((w_value & 0x7f) as u32) << 4,
                ;
                out.push(
                    Action::Modify {
                        register: Register::DeviceConfig,
                        clear: DEVICE_CONFIG_ADDRESS,
                        set,
                    },
                );
                self.setup_u2f_descriptors(out);
                self.expect_status_phase_in(transfer_type, out);
            },
            SetupRequestType::SetConfiguration => {
                self.configuration_current_value = (request.w_value % 0x100) as u8;
                self.expect_status_phase_in(transfer_type, out);
            },
            _ => {},
        }
    }

    /// The request in the buffer of the OUT descriptor that received last.
    pub open spec fn received_request(self, buffers: [[u32; 16]; 2]) -> SetupRequest {
        SetupRequest::parse(bytes_of(buffers@[self.last_ep0_out_idx as int]@))
    }

    /// Whether the driver handles the request in the buffer of the OUT
    /// descriptor that received last.
    pub open spec fn setup_supported(self, buffers: [[u32; 16]; 2]) -> bool {
        self.ep0_out_buffers is Some ==> self.supports(self.received_request(buffers))
    }

    /// What becomes of the request in the buffer of the OUT descriptor that
    /// received last.
    pub open spec fn setup_result(self, transfer_type: TableCase, buffers: [[u32; 16]; 2]) -> (
        USB,
        Seq<Action>,
    ) {
        if self.ep0_out_buffers is Some {
            self.request_result(transfer_type, self.received_request(buffers))
        } else {
            (self, seq![])
        }
    }

    /// Handles a SETUP packet to endpoint 0 OUT, by the kind of its request.
    /// `transfer_type` is the case found in endpoint 0's interrupt register, and
    /// `buffers` is what the OUT buffers hold.
    pub fn handle_setup(
        &mut self,
        transfer_type: TableCase,
        buffers: &[[u32; 16]; 2],
        out: &mut Vec<Action>,
    )
        requires
            old(self).wf(),
            old(self).setup_supported(*buffers),
        ensures
            final(self).wf(),
            *final(self) == old(self).setup_result(transfer_type, *buffers).0,
            final(out)@ == old(out)@ + old(self).setup_result(transfer_type, *buffers).1,
    {
        if self.ep0_out_buffers.is_some() {
            let request: SetupRequest = SetupRequest::new(&buffers[self.last_ep0_out_idx]);
            if request.req_type() == SetupRequestClass::Standard {
                if request.recipient() == SetupRecipient::Device {
                    if request.data_direction() == SetupDirection::DeviceToHost {
                        self.handle_standard_device_to_host(transfer_type, &request, out);
                    } else {
                        self.handle_standard_no_data_phase(transfer_type, &request, out);
                    }
                } else if request.recipient() == SetupRecipient::Interface {
                    self.handle_standard_interface_to_host(transfer_type, &request, out);
                }
            } else if request.req_type() == SetupRequestClass::Class && request.recipient()
                == SetupRecipient::Interface {
                self.handle_class_host_to_interface(&request, out);
            }
        }
    }
}

} // verus!
