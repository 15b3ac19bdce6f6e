//! What holds of the driver as a whole.

pub mod control;
pub mod dispatch;
pub mod frames;
pub mod interrupts;
pub mod startup;
pub mod values;
pub mod wire;

use vstd::prelude::*;

use crate::action::{modified, store_words, Action, Buffer, DmaSlot, Register};
use crate::bank::{all_spare, law_run_concat, law_run_spares, law_run_store_words, Bank};
use crate::bytes::{bytes_of, law_pack_unpack, law_unpack_pack, words_of};
use crate::constants::{
    ALL_IN0, ALL_IN1, ALL_OUT0, ALL_OUT1, DESC_DMA_DONE, DESC_HOST_BUSY, DESC_HOST_READY, DESC_IOC,
    DESC_LAST, DESC_SHORT, DESC_STATUS_MASK, DEVICE_CONFIG_ADDRESS, DEVICE_CONFIG_FULL_SPEED,
    DEVICE_CONFIG_SCATTER_GATHER, DEVICE_CONTROL_CLEAR_IN_NAK, DEVICE_CONTROL_CLEAR_OUT_NAK,
    DEVICE_CONTROL_DISCONNECT, DEVICE_CONTROL_POWER_ON_DONE, EPCTL_CNAK, EPCTL_ENABLE, EPCTL_STALL,
    GET_DESCRIPTOR_CONFIGURATION, GET_DESCRIPTOR_DEVICE, GET_DESCRIPTOR_INTERFACE,
    GET_DESCRIPTOR_STRING, OUT_SETUP, OUT_STS_PHSE_RCVD, OUT_XFER_COMPLETE, RESET_AHB_IDLE,
    RESET_TIMEOUT, U2F_REPORT_SIZE, USB_RESET,
};
use crate::descriptor::u2f_report;
use crate::endpoint0::{enable_bits, receive_flags, send_flags, stall_flags};
use crate::endpoint1::frame_flags;
use crate::handler::{Ep0Event, Snapshot};
use crate::init::{
    after_reset_actions, clear_all_actions, configure_actions, connect_actions,
    core_configuration, core_interrupts, data_fifo_actions, full_configuration, init_actions,
    overwritten, SoftReset,
};
use crate::interrupt::{any_set, TableCase};
use crate::request::{
    SetupClassRequestType, SetupDirection, SetupRecipient, SetupRequest, SetupRequestClass,
    SetupRequestType,
};
use crate::setup::{reply_length, u2f_interface};
use crate::usb::{USBState, PHY, USB};

verus! {

pub(crate) broadcast proof fn lemma_run_concat(bank: Bank, first: Seq<Action>, second: Seq<Action>)
    ensures
        #[trigger] bank.run(first + second) == bank.run(first).run(second),
{
    law_run_concat(bank, first, second);
}

/// The number of bytes that descriptor flags hold.
pub open spec fn byte_count(flags: u32) -> int {
    (flags & 0xffff) as int
}

/// The descriptor is handed to the DMA engine.
pub open spec fn handed_over(flags: u32) -> bool {
    flags & DESC_STATUS_MASK == DESC_HOST_READY
}

impl Bank {
    /// The bytes that endpoint 0 sends to the host.
    pub open spec fn outgoing(self) -> Seq<u8> {
        bytes_of(self.ep0_in).take(byte_count(self.flags[DmaSlot::Ep0In(0)]))
    }
}

proof fn lemma_send_flags(bytes: u16)
    ensures
        byte_count(send_flags(bytes)) == bytes,
        handed_over(send_flags(bytes)),
{
    assert((((DESC_HOST_READY | DESC_LAST | DESC_SHORT | DESC_IOC) | bytes as u32) & 0xffff)
        == bytes && (((DESC_HOST_READY | DESC_LAST | DESC_SHORT | DESC_IOC) | bytes as u32)
        & DESC_STATUS_MASK) == DESC_HOST_READY) by (bit_vector);
}

// Interrupt decoding.

/// Each combination of interrupts that the table shows decodes to its case,
/// whatever the other bits are.
pub proof fn law_table_cases(value: u32)
    ensures
        ({
            let status = any_set(value, OUT_STS_PHSE_RCVD);
            let setup = any_set(value, OUT_SETUP);
            let complete = any_set(value, OUT_XFER_COMPLETE);
            let case = TableCase::of(value);
            &&& !status && !setup && complete ==> case == TableCase::A
            &&& !status && setup && !complete ==> case == TableCase::B
            &&& !status && setup && complete ==> case == TableCase::C
            &&& status && !setup && !complete ==> case == TableCase::D
            &&& status && !setup && complete ==> case == TableCase::E
        }),
{
}

/// A case that reports an updated OUT descriptor comes exactly with a complete
/// transfer.
pub proof fn law_updated_descriptor_cases(value: u32)
    ensures
        any_set(value, OUT_XFER_COMPLETE) == (TableCase::of(value) == TableCase::A || TableCase::of(
            value,
        ) == TableCase::C || TableCase::of(value) == TableCase::E),
{
}

// The OUT descriptors of endpoint 0.

/// After a swap the packet that has come in is in the descriptor that was set up
/// for it, and the other one receives; a second swap gives the first one its
/// role back.
pub proof fn law_swap_alternates(usb: USB)
    requires
        usb.wf(),
        usb.ep0_out_descriptors is Some,
    ensures
        usb.swapped().last_ep0_out_idx == usb.next_ep0_out_idx,
        usb.swapped().next_ep0_out_idx != usb.swapped().last_ep0_out_idx,
        usb.swapped().swapped().next_ep0_out_idx == usb.next_ep0_out_idx,
{
}

// Stages of a control transfer.

/// Preparing for a SETUP packet masks the IN interrupt of endpoint 0, unmasks
/// its OUT interrupt and leaves every other endpoint's mask alone; OUT is
/// enabled without NAK, and the next OUT descriptor may receive 64 bytes.
pub proof fn law_expect_setup(usb: USB, bank: Bank)
    ensures
        ({
            let after = bank.run(usb.expect_setup_actions());
            let mask = after.registers[Register::DeviceAllEpInterruptMask];
            let slot = DmaSlot::Ep0Out(usb.next_ep0_out_idx);
            &&& any_set(mask, ALL_OUT0) && !any_set(mask, ALL_IN0)
            &&& mask & !(ALL_OUT0 | ALL_IN0) == bank.registers[Register::DeviceAllEpInterruptMask]
                & !(ALL_OUT0 | ALL_IN0)
            &&& after.registers[Register::OutControl(0)] == EPCTL_ENABLE | EPCTL_CNAK
            &&& usb.ep0_out_descriptors is Some ==> handed_over(after.flags[slot]) && byte_count(
                after.flags[slot],
            ) == 64
        }),
{
    broadcast use lemma_run_concat;

    lemma_listen_out(bank.registers[Register::DeviceAllEpInterruptMask]);
    lemma_receive_flags();
    reveal_with_fuel(Bank::run_first, 3);
}

proof fn lemma_listen_out(mask: u32)
    ensures
        any_set(modified(mask, ALL_IN0, ALL_OUT0), ALL_OUT0),
        !any_set(modified(mask, ALL_IN0, ALL_OUT0), ALL_IN0),
        modified(mask, ALL_IN0, ALL_OUT0) & !(ALL_OUT0 | ALL_IN0) == mask & !(ALL_OUT0 | ALL_IN0),
{
    let new = modified(mask, ALL_IN0, ALL_OUT0);
    assert(any_set(new, ALL_OUT0) && !any_set(new, ALL_IN0) && new & !(ALL_OUT0 | ALL_IN0) == mask
        & !(ALL_OUT0 | ALL_IN0)) by (bit_vector)
        requires
            new == modified(mask, ALL_IN0, ALL_OUT0),
    ;
}

proof fn lemma_receive_flags()
    ensures
        handed_over(receive_flags()),
        byte_count(receive_flags()) == 64,
        handed_over(stall_flags()),
        byte_count(stall_flags()) == 64,
{
    assert(((DESC_HOST_READY | DESC_LAST | DESC_IOC) | 64u16 as u32) & DESC_STATUS_MASK
        == DESC_HOST_READY && ((DESC_HOST_READY | DESC_LAST | DESC_IOC) | 64u16 as u32) & 0xffff
        == 64 && ((DESC_LAST | DESC_IOC) | 64u16 as u32) & DESC_STATUS_MASK == DESC_HOST_READY && ((
    DESC_LAST | DESC_IOC) | 64u16 as u32) & 0xffff == 64) by (bit_vector);
}

/// A stall puts both directions of endpoint 0 into the stall condition, and the
/// interrupts are those of waiting for a SETUP packet. Every other endpoint's mask
/// is left alone.
pub proof fn law_stall(usb: USB, bank: Bank)
    ensures
        ({
            let after = bank.run(usb.stalled().1);
            let mask = after.registers[Register::DeviceAllEpInterruptMask];
            &&& usb.stalled().0.state == USBState::WaitingForSetupPacket
            &&& after.registers[Register::OutControl(0)] == EPCTL_ENABLE | EPCTL_STALL
            &&& after.registers[Register::InControl(0)] == EPCTL_ENABLE | EPCTL_STALL
            &&& any_set(mask, ALL_OUT0) && !any_set(mask, ALL_IN0)
            &&& mask & !(ALL_OUT0 | ALL_IN0) == bank.registers[Register::DeviceAllEpInterruptMask]
                & !(ALL_OUT0 | ALL_IN0)
        }),
{
    broadcast use lemma_run_concat;

    lemma_listen_out(bank.registers[Register::DeviceAllEpInterruptMask]);
    reveal_with_fuel(Bank::run_first, 3);
}

/// Starting to send unmasks both interrupts of endpoint 0, points the hardware
/// to the IN descriptors and enables both directions, clearing their NAK in
/// case C only. The next packet from the host may come at the same time.
pub proof fn law_start_in(usb: USB, bank: Bank, transfer_type: TableCase, in_descriptors: u32)
    ensures
        ({
            let after = bank.run(usb.start_in_actions(transfer_type, in_descriptors));
            let mask = after.registers[Register::DeviceAllEpInterruptMask];
            let slot = DmaSlot::Ep0Out(usb.next_ep0_out_idx);
            &&& after.registers[Register::InDmaAddress(0)] == in_descriptors
            &&& after.registers[Register::InControl(0)] == enable_bits(transfer_type)
            &&& after.registers[Register::OutControl(0)] == enable_bits(transfer_type)
            &&& any_set(enable_bits(transfer_type), EPCTL_ENABLE)
            &&& any_set(enable_bits(transfer_type), EPCTL_CNAK) == (transfer_type == TableCase::C)
            &&& any_set(mask, ALL_OUT0) && any_set(mask, ALL_IN0)
            &&& mask & !(ALL_OUT0 | ALL_IN0) == bank.registers[Register::DeviceAllEpInterruptMask]
                & !(ALL_OUT0 | ALL_IN0)
            &&& usb.ep0_out_descriptors is Some ==> handed_over(after.flags[slot]) && byte_count(
                after.flags[slot],
            ) == 64
            &&& after.ep0_in == bank.ep0_in
            &&& after.ep1_in == bank.ep1_in
            &&& after.addrs == bank.addrs
            &&& after.flags[DmaSlot::Ep0In(0)] == bank.flags[DmaSlot::Ep0In(0)]
            &&& after.flags[DmaSlot::Ep1In] == bank.flags[DmaSlot::Ep1In]
        }),
{
    broadcast use lemma_run_concat;

    lemma_listen_both(bank.registers[Register::DeviceAllEpInterruptMask]);
    lemma_receive_flags();
    assert(any_set(EPCTL_ENABLE | EPCTL_CNAK, EPCTL_ENABLE) && any_set(
        EPCTL_ENABLE | EPCTL_CNAK,
        EPCTL_CNAK,
    ) && any_set(EPCTL_ENABLE, EPCTL_ENABLE) && !any_set(EPCTL_ENABLE, EPCTL_CNAK))
        by (bit_vector);
    reveal_with_fuel(Bank::run_first, 3);
}

proof fn lemma_listen_both(mask: u32)
    ensures
        any_set(modified(mask, 0, ALL_IN0 | ALL_OUT0), ALL_OUT0),
        any_set(modified(mask, 0, ALL_IN0 | ALL_OUT0), ALL_IN0),
        modified(mask, 0, ALL_IN0 | ALL_OUT0) & !(ALL_OUT0 | ALL_IN0) == mask & !(ALL_OUT0
            | ALL_IN0),
{
    let new = modified(mask, 0, ALL_IN0 | ALL_OUT0);
    assert(any_set(new, ALL_OUT0) && any_set(new, ALL_IN0) && new & !(ALL_OUT0 | ALL_IN0) == mask
        & !(ALL_OUT0 | ALL_IN0)) by (bit_vector)
        requires
            new == modified(mask, 0, ALL_IN0 | ALL_OUT0),
    ;
}

/// The status phase sends a packet of no bytes, and starts like a data phase.
pub proof fn law_status_phase(usb: USB, bank: Bank, transfer_type: TableCase)
    requires
        usb.ep0_in_descriptors is Some,
    ensures
        ({
            let after = bank.run(usb.status_phase_actions(transfer_type));
            let mask = after.registers[Register::DeviceAllEpInterruptMask];
            &&& handed_over(after.flags[DmaSlot::Ep0In(0)])
            &&& byte_count(after.flags[DmaSlot::Ep0In(0)]) == 0
            &&& after.registers[Register::InDmaAddress(0)] == usb.ep0_in_descriptors->0
            &&& after.registers[Register::InControl(0)] == enable_bits(transfer_type)
            &&& any_set(mask, ALL_OUT0) && any_set(mask, ALL_IN0)
            &&& mask & !(ALL_OUT0 | ALL_IN0) == bank.registers[Register::DeviceAllEpInterruptMask]
                & !(ALL_OUT0 | ALL_IN0)
            &&& after.registers[Register::DeviceConfig] == bank.registers[Register::DeviceConfig]
            &&& after.flags[DmaSlot::Ep1In] == bank.flags[DmaSlot::Ep1In]
        }),
{
    broadcast use lemma_run_concat;

    let start = usb.start_in_actions(transfer_type, usb.ep0_in_descriptors->0);
    let prepared = bank.run(
        match usb.ep0_in_buffers {
            Some(addr) => seq![Action::SetAddr { slot: DmaSlot::Ep0In(0), addr }],
            None => seq![],
        },
    ).run(seq![Action::SetFlags { slot: DmaSlot::Ep0In(0), flags: send_flags(0) }]);
    lemma_send_flags(0);
    reveal_with_fuel(Bank::run_first, 2);
    assert(prepared.registers == bank.registers);
    law_start_in(usb, prepared, transfer_type, usb.ep0_in_descriptors->0);
    law_run_spares(prepared, start, Register::DeviceConfig);
}

/// After a USB reset the driver waits for a SETUP packet in the first OUT
/// descriptor. Every other descriptor of endpoint 0 belongs to the processor,
/// each points to its 64 bytes, and the hardware points to the first ones.
pub proof fn law_reset(usb: USB, bank: Bank)
    requires
        usb.wf(),
        usb.ep0_out_descriptors is Some,
        usb.ep0_out_buffers is Some,
        usb.ep0_in_descriptors is Some,
        usb.ep0_in_buffers is Some,
    ensures
        ({
            let after = bank.run(usb.reset_actions());
            &&& usb.after_reset().state == USBState::WaitingForSetupPacket
            &&& usb.after_reset().next_ep0_out_idx == 0
            &&& after.registers[Register::OutDmaAddress(0)] == usb.ep0_out_descriptors->0
            &&& after.registers[Register::InDmaAddress(0)] == usb.ep0_in_descriptors->0
            &&& handed_over(after.flags[DmaSlot::Ep0Out(0)])
            &&& after.flags[DmaSlot::Ep0Out(1)] == DESC_HOST_BUSY
            &&& forall|i: usize|
                i < 2 ==> #[trigger] after.addrs[DmaSlot::Ep0Out(i)] == usb.ep0_out_buffers->0 + 64
                    * i
            &&& forall|i: usize|
                i < 4 ==> #[trigger] after.flags[DmaSlot::Ep0In(i)] == DESC_HOST_BUSY
            &&& forall|i: usize|
                i < 4 ==> #[trigger] after.addrs[DmaSlot::Ep0In(i)] == usb.ep0_in_buffers->0 + 64
                    * i
        }),
{
    broadcast use lemma_run_concat;

    lemma_receive_flags();
    reveal_with_fuel(Bank::run_first, 9);
}

/// Putting the descriptors of endpoint 0 into a clean state a second time does
/// the same again, and leaves what the first time left.
pub proof fn law_clean_twice(usb: USB, bank: Bank)
    requires
        usb.wf(),
    ensures
        usb.with_clean_ep0().with_clean_ep0() == usb.with_clean_ep0(),
        usb.with_clean_ep0().init_ep0_actions() == usb.init_ep0_actions(),
        bank.run(usb.init_ep0_actions()).run(usb.init_ep0_actions()) == bank.run(
            usb.init_ep0_actions(),
        ),
{
    broadcast use lemma_run_concat;

    reveal_with_fuel(Bank::run_first, 9);
    let once = bank.run(usb.init_ep0_actions());
    let twice = once.run(usb.init_ep0_actions());
    assert(twice.registers =~= once.registers);
    assert(twice.flags =~= once.flags);
    assert(twice.addrs =~= once.addrs);
}

// Answers to the host.

/// The bytes that the host gets of a reply are those of the data from its start
/// on, as many as both the reply and the host's length allow. They are handed to
/// the DMA engine, and the hardware points to the descriptor.
pub proof fn law_reply(
    usb: USB,
    bank: Bank,
    transfer_type: TableCase,
    data: Seq<u8>,
    len: int,
    w_length: u16,
)
    requires
        usb.ep0_in_descriptors is Some,
        usb.ep0_in_buffers is Some,
        bank.wf(),
        0 <= len <= data.len() <= 256,
    ensures
        ({
            let after = bank.run(usb.reply_actions(transfer_type, data, len, w_length));
            &&& after.outgoing() == data.take(reply_length(len, w_length) as int)
            &&& handed_over(after.flags[DmaSlot::Ep0In(0)])
            &&& after.registers[Register::InDmaAddress(0)] == usb.ep0_in_descriptors->0
            &&& any_set(after.registers[Register::InControl(0)], EPCTL_ENABLE)
            &&& after.addrs == bank.addrs
        }),
{
    broadcast use lemma_run_concat;

    let words = words_of(data);
    let n = reply_length(len, w_length);
    law_run_store_words(bank, Buffer::Ep0In, words);
    let stored = bank.run(store_words(Buffer::Ep0In, words));
    let armed = stored.run(usb.arm_in(n));
    law_start_in(usb, armed, transfer_type, usb.ep0_in_descriptors->0);
    lemma_send_flags(n);
    reveal_with_fuel(Bank::run_first, 2);
    let after = bank.run(usb.reply_actions(transfer_type, data, len, w_length));
    assert(after.ep0_in == words + bank.ep0_in.skip(words.len() as int));
    law_unpack_pack(data);
    assert forall|i: int| 0 <= i < n implies bytes_of(after.ep0_in)[i] == data[i] by {
        assert(bytes_of(words)[i] == bytes_of(words).take(data.len() as int)[i]);
        assert(after.ep0_in[i / 4] == words[i / 4]);
    }
    assert(after.outgoing() =~= data.take(n as int));
}

/// A standard request for data with some code.
pub open spec fn asks(
    request: SetupRequest,
    target: SetupRecipient,
    code: SetupRequestType,
) -> bool {
    &&& request.class() == SetupRequestClass::Standard
    &&& request.target() == target
    &&& request.direction() == SetupDirection::DeviceToHost
    &&& request.standard_code() == code
}

impl USB {
    /// The data that the host is owed for a request, if there is any.
    pub open spec fn answer(self, request: SetupRequest) -> Option<Seq<u8>> {
        let kind = request.value_high() as u32;
        if asks(request, SetupRecipient::Device, SetupRequestType::GetConfiguration) {
            Some(seq![self.configuration_current_value])
        } else if asks(request, SetupRecipient::Device, SetupRequestType::GetStatus) {
            Some(seq![0u8, 0u8])
        } else if asks(request, SetupRecipient::Interface, SetupRequestType::GetDescriptor) {
            Some(u2f_report())
        } else if !asks(request, SetupRecipient::Device, SetupRequestType::GetDescriptor) {
            None
        } else if kind == GET_DESCRIPTOR_DEVICE {
            Some(self.device_descriptor().wire())
        } else if kind == GET_DESCRIPTOR_CONFIGURATION && self.configuration_descriptor is Some
            && self.configuration_total_length <= 64 {
            Some((self.configuration_descriptor->0)@.take(self.configuration_total_length as int))
        } else if kind == GET_DESCRIPTOR_INTERFACE {
            Some(u2f_interface().wire())
        } else if kind == GET_DESCRIPTOR_STRING && self.strings is Some {
            Some(self.strings->0@[request.value_low() as int].wire())
        } else {
            None
        }
    }
}

/// A supported request to which data is owed is answered with that data, cut off
/// at the length that the host asked for.
pub proof fn law_answered(usb: USB, bank: Bank, transfer_type: TableCase, request: SetupRequest)
    requires
        usb.wf(),
        usb.supports(request),
        usb.ep0_in_descriptors is Some,
        usb.ep0_in_buffers is Some,
        usb.answer(request) is Some,
        bank.wf(),
    ensures
        ({
            let data = usb.answer(request)->0;
            let result = usb.request_result(transfer_type, request);
            let after = bank.run(result.1);
            &&& result.0.state == USBState::DataStageIn
            &&& after.outgoing() == data.take(
                reply_length(data.len() as int, request.w_length) as int,
            )
            &&& handed_over(after.flags[DmaSlot::Ep0In(0)])
            &&& after.registers[Register::InDmaAddress(0)] == usb.ep0_in_descriptors->0
            &&& any_set(after.registers[Register::InControl(0)], EPCTL_ENABLE)
        }),
{
    let data = usb.answer(request)->0;
    let kind = request.value_high() as u32;
    let w_length = request.w_length;
    if asks(request, SetupRecipient::Device, SetupRequestType::GetDescriptor) && kind
        == GET_DESCRIPTOR_CONFIGURATION {
        let stored = (usb.configuration_descriptor->0)@;
        let len = usb.configuration_total_length as int;
        law_reply(usb, bank, transfer_type, stored, len, w_length);
        let n = reply_length(len, w_length) as int;
        assert(stored.take(len).take(n) =~= stored.take(n));
    } else {
        if asks(request, SetupRecipient::Device, SetupRequestType::GetDescriptor) && kind
            == GET_DESCRIPTOR_STRING {
            assert(usb.strings->0@[request.value_low() as int].wf());
        }
        assert(data.len() <= 256);
        law_reply(usb, bank, transfer_type, data, data.len() as int, w_length);
    }
}

/// A request that the driver answers with a stall: a GET_DESCRIPTOR request to
/// the device for a type that is not understood, or a SET_IDLE request to the
/// interface.
pub open spec fn refused(request: SetupRequest) -> bool {
    ||| {
        &&& asks(request, SetupRecipient::Device, SetupRequestType::GetDescriptor)
        &&& request.value_high() != GET_DESCRIPTOR_DEVICE
        &&& request.value_high() != GET_DESCRIPTOR_CONFIGURATION
        &&& request.value_high() != GET_DESCRIPTOR_STRING
        &&& request.value_high() != GET_DESCRIPTOR_INTERFACE
    }
    ||| {
        &&& request.class() == SetupRequestClass::Class
        &&& request.target() == SetupRecipient::Interface
        &&& request.direction() == SetupDirection::HostToDevice
        &&& request.class_code() == SetupClassRequestType::SetIdle
    }
}

/// A request that is refused is supported, and answered with a stall.
pub proof fn law_refused_stalls(usb: USB, transfer_type: TableCase, request: SetupRequest)
    requires
        refused(request),
    ensures
        usb.supports(request),
        usb.request_result(transfer_type, request) == usb.stalled(),
{
}

/// A standard request without data and with some code.
pub open spec fn orders(request: SetupRequest, code: SetupRequestType) -> bool {
    &&& request.class() == SetupRequestClass::Standard
    &&& request.target() == SetupRecipient::Device
    &&& request.direction() == SetupDirection::HostToDevice
    &&& request.w_length == 0
    &&& request.standard_code() == code
}

/// The configuration that the host has set is the one it gets when it asks for
/// the configuration.
pub proof fn law_configuration_kept(
    usb: USB,
    transfer_type: TableCase,
    set: SetupRequest,
    get: SetupRequest,
)
    requires
        orders(set, SetupRequestType::SetConfiguration),
        asks(get, SetupRecipient::Device, SetupRequestType::GetConfiguration),
    ensures
        usb.supports(set),
        usb.request_result(transfer_type, set).0.answer(get) == Some(seq![set.value_low()]),
{
}

/// No request but SET_CONFIGURATION changes the chosen configuration, and none
/// changes anything of the driver but its stage and that.
pub proof fn law_requests_keep(usb: USB, transfer_type: TableCase, request: SetupRequest)
    requires
        usb.supports(request),
    ensures
        ({
            let after = usb.request_result(transfer_type, request).0;
            &&& after == (USB {
                state: after.state,
                configuration_current_value: after.configuration_current_value,
                ..usb
            })
            &&& after.configuration_current_value != usb.configuration_current_value ==> orders(
                request,
                SetupRequestType::SetConfiguration,
            )
        }),
{
}

/// SET_ADDRESS puts the address into bits 10:4 of the device configuration and
/// leaves its other bits alone, unmasks the interrupts of endpoint 1, which can
/// then take a frame, and is answered with a status of no bytes.
pub proof fn law_set_address(
    usb: USB,
    bank: Bank,
    transfer_type: TableCase,
    request: SetupRequest,
)
    requires
        orders(request, SetupRequestType::SetAddress),
        usb.ep0_in_descriptors is Some,
    ensures
        ({
            let result = usb.request_result(transfer_type, request);
            let after = bank.run(result.1);
            let config = after.registers[Register::DeviceConfig];
            let mask = after.registers[Register::DeviceAllEpInterruptMask];
            &&& usb.supports(request)
            &&& result.0.state == USBState::NoDataStage
            &&& (config & DEVICE_CONFIG_ADDRESS) >> 4 == request.w_value % 0x80
            &&& config & !DEVICE_CONFIG_ADDRESS == bank.registers[Register::DeviceConfig]
                & !DEVICE_CONFIG_ADDRESS
            &&& any_set(mask, ALL_OUT1) && any_set(mask, ALL_IN1)
            &&& usb.has_ep1_in() ==> result.0.tx_ready(after.flags[DmaSlot::Ep1In])
            &&& handed_over(after.flags[DmaSlot::Ep0In(0)])
            &&& byte_count(after.flags[DmaSlot::Ep0In(0)]) == 0
        }),
{
    broadcast use lemma_run_concat;

    let old_config = bank.registers[Register::DeviceConfig];
    let set = (0x10 * (request.w_value % 0x80)) as u32;
    let config = modified(old_config, DEVICE_CONFIG_ADDRESS, set);
    let address = (request.w_value % 0x80) as u32;
    assert((config & DEVICE_CONFIG_ADDRESS) >> 4 == address && config & !DEVICE_CONFIG_ADDRESS
        == old_config & !DEVICE_CONFIG_ADDRESS) by (bit_vector)
        requires
            config == modified(old_config, DEVICE_CONFIG_ADDRESS, set),
            set == 0x10 * address,
            address < 0x80,
    ;
    let first = bank.run(
        seq![
            Action::Modify {
                register: Register::DeviceConfig,
                clear: DEVICE_CONFIG_ADDRESS,
                set,
            },
        ],
    );
    let second = first.run(usb.setup_u2f_actions());
    reveal_with_fuel(Bank::run_first, 4);
    assert(first.registers[Register::DeviceConfig] == config);
    assert(second.registers[Register::DeviceConfig] == config);
    let mask = first.registers[Register::DeviceAllEpInterruptMask];
    let new_mask = modified(mask, 0, ALL_OUT1 | ALL_IN1);
    assert(second.registers[Register::DeviceAllEpInterruptMask] == new_mask);
    if usb.has_ep1_in() {
        law_ready_after_setup(usb, first);
    }
    law_status_phase(usb, second, transfer_type);
    let last = second.run(usb.status_phase_actions(transfer_type));
    let last_mask = last.registers[Register::DeviceAllEpInterruptMask];
    assert(any_set(last_mask, ALL_OUT1) && any_set(last_mask, ALL_IN1)) by (bit_vector)
        requires
            new_mask == modified(mask, 0, ALL_OUT1 | ALL_IN1),
            last_mask & !(ALL_OUT0 | ALL_IN0) == new_mask & !(ALL_OUT0 | ALL_IN0),
    ;
}

/// The interrupt mask of endpoint 0 follows the stage: OUT is always listened to,
/// IN in the stages in which the device sends.
pub open spec fn mask_follows(usb: USB, bank: Bank) -> bool {
    let mask = bank.registers[Register::DeviceAllEpInterruptMask];
    &&& any_set(mask, ALL_OUT0)
    &&& any_set(mask, ALL_IN0) == (usb.state != USBState::WaitingForSetupPacket)
}

/// Handling a request keeps the mask in step with the stage.
pub proof fn law_request_mask(usb: USB, bank: Bank, transfer_type: TableCase, request: SetupRequest)
    requires
        usb.supports(request),
        usb.ep0_in_descriptors is Some,
        mask_follows(usb, bank),
    ensures
        ({
            let result = usb.request_result(transfer_type, request);
            mask_follows(result.0, bank.run(result.1))
        }),
{
    broadcast use lemma_run_concat;

    let result = usb.request_result(transfer_type, request);
    let status = usb.status_phase_actions(transfer_type);
    let w_length = request.w_length;
    let n = result.1.len() - status.len();
    assert(bank.run(seq![]) == bank);
    match result.0.state {
        USBState::WaitingForSetupPacket => {
            if result == usb.stalled() {
                law_stall(usb, bank);
            } else {
                assert(result.1 =~= seq![]);
            }
        },
        USBState::DataStageIn => {
            assert forall|data: Seq<u8>, len: int|
                both_heard(
                    bank.run(#[trigger] usb.reply_actions(transfer_type, data, len, w_length)),
                ) by {
                lemma_reply_mask(usb, bank, transfer_type, data, len, w_length);
            }
        },
        USBState::NoDataStage => {
            if result.1.len() > 0 {
                assert(result.1 =~= result.1.take(n) + status);
                law_status_phase(usb, bank.run(result.1.take(n)), transfer_type);
            }
        },
    }
}

/// Both interrupts of endpoint 0 are unmasked.
spec fn both_heard(bank: Bank) -> bool {
    let mask = bank.registers[Register::DeviceAllEpInterruptMask];
    any_set(mask, ALL_OUT0) && any_set(mask, ALL_IN0)
}

proof fn lemma_reply_mask(
    usb: USB,
    bank: Bank,
    transfer_type: TableCase,
    data: Seq<u8>,
    len: int,
    w_length: u16,
)
    requires
        usb.ep0_in_descriptors is Some,
    ensures
        both_heard(bank.run(usb.reply_actions(transfer_type, data, len, w_length))),
{
    let prefix = if usb.ep0_in_buffers is Some {
        store_words(Buffer::Ep0In, words_of(data)) + usb.arm_in(reply_length(len, w_length))
    } else {
        usb.arm_in(0)
    };
    law_run_concat(bank, prefix, usb.data_phase_actions(transfer_type));
    law_start_in(usb, bank.run(prefix), transfer_type, usb.ep0_in_descriptors->0);
}

/// A USB reset brings the mask in step with the stage, whatever it was.
pub proof fn law_reset_mask(usb: USB, bank: Bank)
    ensures
        mask_follows(usb.after_reset(), bank.run(usb.reset_actions())),
{
    broadcast use lemma_run_concat;

    law_expect_setup(usb.with_clean_ep0(), bank.run(usb.init_ep0_actions()));
}

proof fn lemma_event_mask(usb: USB, bank: Bank, event: Ep0Event, snapshot: Snapshot)
    requires
        usb.ep0_in_descriptors is Some,
        mask_follows(usb, bank),
        event == Ep0Event::Setup ==> usb.setup_supported(snapshot.ep0_out_buffers),
    ensures
        ({
            let result = usb.event_result(event, snapshot);
            mask_follows(result.0, bank.run(result.1))
        }),
{
    let result = usb.event_result(event, snapshot);
    let mask = Register::DeviceAllEpInterruptMask;
    match event {
        Ep0Event::Setup => {
            if usb.ep0_out_buffers is Some {
                law_request_mask(
                    usb,
                    bank,
                    TableCase::of(snapshot.out0_interrupt),
                    usb.received_request(snapshot.ep0_out_buffers),
                );
            }
        },
        Ep0Event::ExpectSetup => law_expect_setup(usb, bank),
        Ep0Event::Stall => law_stall(usb, bank),
        _ => {
            assert(all_spare(result.1, mask));
            law_run_spares(bank, result.1, mask);
        },
    }
}

/// Every interrupt that the driver accepts keeps the mask in step with the
/// stage. A reset brings it in step first.
pub proof fn law_interrupt_mask(usb: USB, bank: Bank, snapshot: Snapshot)
    requires
        usb.wf(),
        usb.accepts(snapshot),
        usb.ep0_in_descriptors is Some,
        mask_follows(usb, bank),
    ensures
        ({
            let result = usb.interrupt_result(snapshot);
            mask_follows(result.0, bank.run(result.1))
        }),
{
    broadcast use lemma_run_concat;

    let mask = Register::DeviceAllEpInterruptMask;
    let core = bank.run(snapshot.core_actions());
    law_run_spares(bank, snapshot.core_actions(), mask);
    let endpoints = usb.endpoints_result(snapshot);
    let done = core.run(endpoints.1);
    if snapshot.for_ep0() {
        let out_interrupt = snapshot.ep0_pending().0;
        let in_interrupt = snapshot.ep0_pending().1;
        let cleared = snapshot.ep0_clear_actions(out_interrupt, in_interrupt);
        let swaps = usb.receive_actions(out_interrupt, snapshot);
        let completed = usb.in_completed_actions(in_interrupt, snapshot);
        law_run_spares(core, cleared, mask);
        law_run_spares(core.run(cleared), swaps, mask);
        law_run_spares(core.run(cleared).run(swaps), completed, mask);
        lemma_event_mask(
            usb.received(out_interrupt, snapshot),
            core.run(cleared).run(swaps).run(completed),
            usb.ep0_event(out_interrupt, snapshot),
            snapshot,
        );
    } else {
        assert(all_spare(endpoints.1, mask));
        law_run_spares(core, endpoints.1, mask);
    }
    assert(mask_follows(endpoints.0, done));
    let last = seq![
        Action::Write { register: Register::InterruptStatus, value: snapshot.interrupt_status },
    ];
    if any_set(snapshot.interrupt_status, USB_RESET) {
        law_reset_mask(endpoints.0, done);
        law_run_spares(done.run(endpoints.0.reset_actions()), last, mask);
    } else {
        assert(done.run(seq![]) == done);
        law_run_spares(done, last, mask);
    }
}

/// An interrupt brings a SET_CONFIGURATION request.
pub open spec fn sets_configuration(usb: USB, snapshot: Snapshot) -> bool {
    let out_interrupt = snapshot.ep0_pending().0;
    let request = usb.received(out_interrupt, snapshot).received_request(
        snapshot.ep0_out_buffers,
    );
    &&& snapshot.for_ep0()
    &&& usb.ep0_event(out_interrupt, snapshot) == Ep0Event::Setup
    &&& usb.ep0_out_buffers is Some
    &&& orders(request, SetupRequestType::SetConfiguration)
}

/// An interrupt keeps the invariant and changes nothing of the driver but its
/// stage, which OUT descriptor is which, and the chosen configuration; and that
/// only for a SET_CONFIGURATION request.
pub proof fn law_interrupt_keeps(usb: USB, snapshot: Snapshot)
    requires
        usb.wf(),
        usb.accepts(snapshot),
    ensures
        ({
            let after = usb.interrupt_result(snapshot).0;
            &&& after.wf()
            &&& after == (USB {
                state: after.state,
                next_ep0_out_idx: after.next_ep0_out_idx,
                last_ep0_out_idx: after.last_ep0_out_idx,
                configuration_current_value: after.configuration_current_value,
                ..usb
            })
            &&& after.configuration_current_value != usb.configuration_current_value
                ==> sets_configuration(usb, snapshot)
        }),
{
    if snapshot.for_ep0() {
        let out_interrupt = snapshot.ep0_pending().0;
        let received = usb.received(out_interrupt, snapshot);
        if usb.ep0_event(out_interrupt, snapshot) == Ep0Event::Setup && received.ep0_out_buffers
            is Some {
            law_requests_keep(
                received,
                TableCase::of(snapshot.out0_interrupt),
                received.received_request(snapshot.ep0_out_buffers),
            );
        }
    }
}

impl USB {
    /// The driver after a series of interrupts.
    pub open spec fn after_interrupts(self, snapshots: Seq<Snapshot>) -> USB
        decreases snapshots.len(),
    {
        if snapshots.len() == 0 {
            self
        } else {
            self.after_interrupts(snapshots.drop_last()).interrupt_result(snapshots.last()).0
        }
    }

    /// Each interrupt of a series is accepted when it comes.
    pub open spec fn accepts_all(self, snapshots: Seq<Snapshot>) -> bool {
        forall|i: int|
            0 <= i < snapshots.len() ==> self.after_interrupts(snapshots.take(i)).accepts(
                #[trigger] snapshots[i],
            )
    }

    /// No interrupt of a series brings a SET_CONFIGURATION request.
    pub open spec fn never_configured(self, snapshots: Seq<Snapshot>) -> bool {
        forall|i: int|
            0 <= i < snapshots.len() ==> !sets_configuration(
                self.after_interrupts(snapshots.take(i)),
                #[trigger] snapshots[i],
            )
    }
}

/// Over any series of accepted interrupts the driver keeps its invariant, its
/// memory, its parameters and its client, and as long as no SET_CONFIGURATION
/// request comes, the chosen configuration too.
pub proof fn law_interrupts_keep(usb: USB, snapshots: Seq<Snapshot>)
    requires
        usb.wf(),
        usb.accepts_all(snapshots),
    ensures
        ({
            let after = usb.after_interrupts(snapshots);
            &&& after.wf()
            &&& after == (USB {
                state: after.state,
                next_ep0_out_idx: after.next_ep0_out_idx,
                last_ep0_out_idx: after.last_ep0_out_idx,
                configuration_current_value: after.configuration_current_value,
                ..usb
            })
            &&& usb.never_configured(snapshots) ==> after.configuration_current_value
                == usb.configuration_current_value
        }),
    decreases snapshots.len(),
{
    if snapshots.len() > 0 {
        let rest = snapshots.drop_last();
        let last = snapshots[snapshots.len() - 1];
        assert forall|i: int| 0 <= i < rest.len() implies usb.after_interrupts(
            rest.take(i),
        ).accepts(#[trigger] rest[i]) by {
            assert(rest[i] == snapshots[i]);
            assert(rest.take(i) =~= snapshots.take(i));
        }
        if usb.never_configured(snapshots) {
            assert forall|i: int| 0 <= i < rest.len() implies !sets_configuration(
                usb.after_interrupts(rest.take(i)),
                #[trigger] rest[i],
            ) by {
                assert(rest[i] == snapshots[i]);
                assert(rest.take(i) =~= snapshots.take(i));
            }
        }
        law_interrupts_keep(usb, rest);
        assert(snapshots.take(snapshots.len() - 1) =~= rest);
        law_interrupt_keeps(usb.after_interrupts(rest), last);
    }
}

/// A SETUP packet has come in for endpoint 0: an OUT transfer is complete and
/// the descriptor that was set up for it says so. There is no USB reset.
pub open spec fn setup_arrived(usb: USB, snapshot: Snapshot) -> bool {
    &&& usb.ep0_out_descriptors is Some
    &&& usb.ep0_out_buffers is Some
    &&& snapshot.for_ep0()
    &&& snapshot.ep0_pending().0
    &&& TableCase::of(snapshot.out0_interrupt) == TableCase::A || TableCase::of(
        snapshot.out0_interrupt,
    ) == TableCase::C
    &&& snapshot.setup_ready(usb.next_ep0_out_idx)
    &&& !any_set(snapshot.interrupt_status, USB_RESET)
}

/// The request in the OUT buffer that was set up to receive.
pub open spec fn arrived_request(usb: USB, snapshot: Snapshot) -> SetupRequest {
    SetupRequest::parse(bytes_of(snapshot.ep0_out_buffers@[usb.next_ep0_out_idx as int]@))
}

/// What is done about an interrupt before endpoint 0's packet is looked at.
pub open spec fn prelude(usb: USB, snapshot: Snapshot) -> Seq<Action> {
    let pending = snapshot.ep0_pending();
    snapshot.core_actions() + (snapshot.ep0_clear_actions(pending.0, pending.1)
        + usb.receive_actions(pending.0, snapshot) + usb.in_completed_actions(pending.1, snapshot))
}

/// A SETUP packet is accepted exactly if its request is supported, and then it is
/// handled at once, in whatever stage the driver is. What is done before and
/// after that only writes registers, and neither the device configuration nor the
/// mask of the endpoints.
pub proof fn law_setup_handled(usb: USB, bank: Bank, snapshot: Snapshot)
    requires
        usb.wf(),
        setup_arrived(usb, snapshot),
    ensures
        usb.accepts(snapshot) == usb.supports(arrived_request(usb, snapshot)),
        ({
            let handled = usb.swapped().request_result(
                TableCase::of(snapshot.out0_interrupt),
                arrived_request(usb, snapshot),
            );
            let result = usb.interrupt_result(snapshot);
            let before = bank.run(prelude(usb, snapshot));
            let config = Register::DeviceConfig;
            let mask = Register::DeviceAllEpInterruptMask;
            &&& result.0 == handled.0
            &&& bank.run(result.1) == before.run(handled.1).after(
                Action::Write {
                    register: Register::InterruptStatus,
                    value: snapshot.interrupt_status,
                },
            )
            &&& before == (Bank { registers: before.registers, ..bank })
            &&& before.registers[config] == bank.registers[config]
            &&& before.registers[mask] == bank.registers[mask]
        }),
{
    broadcast use lemma_run_concat;

    let out_interrupt = snapshot.ep0_pending().0;
    let in_interrupt = snapshot.ep0_pending().1;
    let core = bank.run(snapshot.core_actions());
    let cleared = core.run(snapshot.ep0_clear_actions(out_interrupt, in_interrupt));
    let received = cleared.run(usb.receive_actions(out_interrupt, snapshot));
    let before = received.run(usb.in_completed_actions(in_interrupt, snapshot));
    law_updated_descriptor_cases(snapshot.out0_interrupt);
    assert(usb.ep0_event(out_interrupt, snapshot) == Ep0Event::Setup);
    reveal_with_fuel(Bank::run_first, 2);
    assert(before == (Bank { registers: before.registers, ..bank }));
    law_run_spares(bank, prelude(usb, snapshot), Register::DeviceConfig);
    law_run_spares(bank, prelude(usb, snapshot), Register::DeviceAllEpInterruptMask);
    let handled = usb.swapped().request_result(
        TableCase::of(snapshot.out0_interrupt),
        arrived_request(usb, snapshot),
    );
    let after = before.run(handled.1);
    assert(after.run(seq![]) == after);
}

/// When the host asks for data in a SETUP packet, the interrupt that the packet
/// raises ends with that data, cut off at the host's length, on its way.
pub proof fn law_host_is_answered(usb: USB, bank: Bank, snapshot: Snapshot)
    requires
        usb.wf(),
        setup_arrived(usb, snapshot),
        usb.supports(arrived_request(usb, snapshot)),
        usb.ep0_in_descriptors is Some,
        usb.ep0_in_buffers is Some,
        usb.answer(arrived_request(usb, snapshot)) is Some,
        bank.wf(),
    ensures
        usb.accepts(snapshot),
        ({
            let request = arrived_request(usb, snapshot);
            let data = usb.answer(request)->0;
            let result = usb.interrupt_result(snapshot);
            let after = bank.run(result.1);
            &&& result.0.state == USBState::DataStageIn
            &&& after.outgoing() == data.take(
                reply_length(data.len() as int, request.w_length) as int,
            )
            &&& handed_over(after.flags[DmaSlot::Ep0In(0)])
            &&& after.registers[Register::InDmaAddress(0)] == usb.ep0_in_descriptors->0
            &&& any_set(after.registers[Register::InControl(0)], EPCTL_ENABLE)
        }),
{
    law_setup_handled(usb, bank, snapshot);
    law_answered(
        usb.swapped(),
        bank.run(prelude(usb, snapshot)),
        TableCase::of(snapshot.out0_interrupt),
        arrived_request(usb, snapshot),
    );
}

/// When the host asks in a SETUP packet for a descriptor of the device that is
/// not understood, or tries to set the idle rate of the interface, the interrupt
/// that the packet raises ends with both directions of endpoint 0 stalled, and
/// the driver waits for the next SETUP packet.
pub proof fn law_host_is_refused(usb: USB, bank: Bank, snapshot: Snapshot)
    requires
        usb.wf(),
        setup_arrived(usb, snapshot),
        refused(arrived_request(usb, snapshot)),
    ensures
        usb.accepts(snapshot),
        ({
            let result = usb.interrupt_result(snapshot);
            let after = bank.run(result.1);
            &&& result.0.state == USBState::WaitingForSetupPacket
            &&& after.registers[Register::OutControl(0)] == EPCTL_ENABLE | EPCTL_STALL
            &&& after.registers[Register::InControl(0)] == EPCTL_ENABLE | EPCTL_STALL
        }),
{
    let request = arrived_request(usb, snapshot);
    let transfer_type = TableCase::of(snapshot.out0_interrupt);
    law_setup_handled(usb, bank, snapshot);
    law_refused_stalls(usb, transfer_type, request);
    law_refused_stalls(usb.swapped(), transfer_type, request);
    law_stall(usb.swapped(), bank.run(prelude(usb, snapshot)));
}

/// When the host sets the device's address in a SETUP packet, the interrupt that
/// the packet raises ends with the address in bits 10:4 of the device
/// configuration, its other bits being what they were, and with a status of no
/// bytes on its way. Endpoint 1 is listened to, and can take a frame.
pub proof fn law_host_sets_address(usb: USB, bank: Bank, snapshot: Snapshot)
    requires
        usb.wf(),
        setup_arrived(usb, snapshot),
        usb.ep0_in_descriptors is Some,
        orders(arrived_request(usb, snapshot), SetupRequestType::SetAddress),
    ensures
        usb.accepts(snapshot),
        ({
            let result = usb.interrupt_result(snapshot);
            let after = bank.run(result.1);
            let config = after.registers[Register::DeviceConfig];
            let mask = after.registers[Register::DeviceAllEpInterruptMask];
            &&& result.0.state == USBState::NoDataStage
            &&& (config & DEVICE_CONFIG_ADDRESS) >> 4 == arrived_request(usb, snapshot).w_value
                % 0x80
            &&& config & !DEVICE_CONFIG_ADDRESS == bank.registers[Register::DeviceConfig]
                & !DEVICE_CONFIG_ADDRESS
            &&& any_set(mask, ALL_OUT1) && any_set(mask, ALL_IN1)
            &&& usb.has_ep1_in() ==> result.0.tx_ready(after.flags[DmaSlot::Ep1In])
            &&& handed_over(after.flags[DmaSlot::Ep0In(0)])
            &&& byte_count(after.flags[DmaSlot::Ep0In(0)]) == 0
        }),
{
    let request = arrived_request(usb, snapshot);
    let transfer_type = TableCase::of(snapshot.out0_interrupt);
    law_setup_handled(usb, bank, snapshot);
    law_set_address(usb, bank, transfer_type, request);
    law_set_address(usb.swapped(), bank.run(prelude(usb, snapshot)), transfer_type, request);
}

/// After the host has set a configuration in a SETUP packet, a later one in which
/// it asks for the configuration is answered with it, whatever interrupts came
/// between them, as long as none of them brought another SET_CONFIGURATION
/// request.
pub proof fn law_host_gets_configuration_back(
    usb: USB,
    bank: Bank,
    set: Snapshot,
    between: Seq<Snapshot>,
    get: Snapshot,
)
    requires
        usb.wf(),
        usb.ep0_in_descriptors is Some,
        usb.ep0_in_buffers is Some,
        bank.wf(),
        setup_arrived(usb, set),
        orders(arrived_request(usb, set), SetupRequestType::SetConfiguration),
        ({
            let configured = usb.interrupt_result(set).0;
            let asked = configured.after_interrupts(between);
            &&& configured.accepts_all(between)
            &&& configured.never_configured(between)
            &&& setup_arrived(asked, get)
            &&& asks(
                arrived_request(asked, get),
                SetupRecipient::Device,
                SetupRequestType::GetConfiguration,
            )
            &&& arrived_request(asked, get).w_length >= 1
        }),
    ensures
        ({
            let asked = usb.interrupt_result(set).0.after_interrupts(between);
            &&& usb.accepts(set)
            &&& asked.accepts(get)
            &&& bank.run(asked.interrupt_result(get).1).outgoing() == seq![
                arrived_request(usb, set).value_low(),
            ]
        }),
{
    let order = arrived_request(usb, set);
    let configured = usb.interrupt_result(set).0;
    let asked = configured.after_interrupts(between);
    law_setup_handled(usb, bank, set);
    law_configuration_kept(
        usb,
        TableCase::of(set.out0_interrupt),
        order,
        arrived_request(asked, get),
    );
    law_configuration_kept(
        usb.swapped(),
        TableCase::of(set.out0_interrupt),
        order,
        arrived_request(asked, get),
    );
    law_interrupt_keeps(usb, set);
    law_interrupts_keep(configured, between);
    law_host_is_answered(asked, bank, get);
    let data = seq![order.value_low()];
    assert(data.take(1) =~= data);
}

// The configuration descriptor.

/// The full configuration descriptor fits its buffer, and its total length field
/// holds its length.
pub proof fn law_full_configuration()
    ensures
        full_configuration().len() == 41,
        full_configuration()[2] + 0x100 * full_configuration()[3] == full_configuration().len(),
{
}

/// A driver whose buffer holds the full configuration descriptor, as after
/// `init`, owes it to a host that asks for the configuration descriptor.
pub proof fn law_configuration_answer(usb: USB, buffer: Seq<u8>, request: SetupRequest)
    requires
        buffer.len() == 64,
        usb.configuration_descriptor is Some,
        (usb.configuration_descriptor->0)@ == overwritten(buffer, 0, full_configuration()),
        usb.configuration_total_length == full_configuration().len(),
        asks(request, SetupRecipient::Device, SetupRequestType::GetDescriptor),
        request.value_high() == GET_DESCRIPTOR_CONFIGURATION,
    ensures
        usb.answer(request) == Some(full_configuration()),
{
    assert((usb.configuration_descriptor->0)@.take(41) =~= full_configuration());
}

/// The device descriptor carries the vendor and product ids, little-endian, at
/// their places.
pub proof fn law_device_ids(usb: USB)
    ensures
        ({
            let wire = usb.device_descriptor().wire();
            &&& wire.len() == 18
            &&& wire[8] + 0x100 * wire[9] == usb.vendor_id
            &&& wire[10] + 0x100 * wire[11] == usb.product_id
        }),
{
}

// Bringing up the controller.

/// The wait for a soft reset ends after 20002 reads of the reset register at the
/// latest, whatever they show.
pub proof fn law_soft_reset_ends(reads: Seq<u32>)
    requires
        reads.len() >= 2 * RESET_TIMEOUT + 2,
    ensures
        SoftReset::Resetting(RESET_TIMEOUT).after_all(reads) == SoftReset::Done,
{
    lemma_soft_reset_progress(reads);
}

proof fn lemma_soft_reset_progress(reads: Seq<u32>)
    ensures
        match SoftReset::Resetting(RESET_TIMEOUT).after_all(reads) {
            SoftReset::Resetting(timeout) => timeout + reads.len() == RESET_TIMEOUT,
            SoftReset::Idling(timeout) => timeout + reads.len() <= 2 * RESET_TIMEOUT + 1,
            SoftReset::Done => true,
        },
    decreases reads.len(),
{
    if reads.len() > 0 {
        lemma_soft_reset_progress(reads.drop_last());
    }
}

/// Once the reset flag is clear, the wait goes on as long as the idle flag is
/// read as clear and time is left, and ends as soon as it is read as set.
pub proof fn law_soft_reset_waits_for_idle(timeout: u32, reads: Seq<u32>, last: u32)
    requires
        reads.len() <= timeout,
        forall|i: int| 0 <= i < reads.len() ==> !any_set(#[trigger] reads[i], RESET_AHB_IDLE),
        any_set(last, RESET_AHB_IDLE),
    ensures
        SoftReset::Idling(timeout).after_all(reads) == SoftReset::Idling(
            (timeout - reads.len()) as u32,
        ),
        SoftReset::Idling(timeout).after_all(reads.push(last)) == SoftReset::Done,
    decreases reads.len(),
{
    if reads.len() > 0 {
        let rest = reads.drop_last();
        assert forall|i: int| 0 <= i < rest.len() implies !any_set(
            #[trigger] rest[i],
            RESET_AHB_IDLE,
        ) by {
            assert(rest[i] == reads[i]);
        }
        law_soft_reset_waits_for_idle(timeout, rest, last);
        assert(!any_set(reads[reads.len() - 1], RESET_AHB_IDLE));
    }
    assert(reads.push(last).drop_last() =~= reads);
}

/// The device control value of a connected device, from what the register held:
/// the bits that clear the global NAKs are set, soft disconnect and power-on
/// programming done are clear, and the rest is kept.
pub open spec fn connected_control(before: u32) -> u32 {
    (before & !(DEVICE_CONTROL_DISCONNECT | DEVICE_CONTROL_POWER_ON_DONE)) | (
    DEVICE_CONTROL_CLEAR_OUT_NAK | DEVICE_CONTROL_CLEAR_IN_NAK)
}

/// `init` resets the core and waits for the end of that. From whatever the reset
/// leaves in the registers, the rest of `init` connects the device, listens to
/// the core interrupts, and configures the device for full speed and
/// scatter/gather. In device control it leaves the two bits written that clear the
/// global NAKs, and takes back the soft disconnect and power-on programming done.
/// What else the reset left in device control, in the device configuration and in
/// the mask of the endpoints stays.
pub proof fn law_init(bank: Bank, phy: PHY)
    ensures
        ({
            let before = init_actions(phy).take(10);
            &&& before.last() == Action::WaitSoftReset
            &&& init_actions(phy) == before + after_reset_actions()
        }),
        ({
            let after = bank.run(after_reset_actions());
            let config = after.registers[Register::DeviceConfig];
            let set = DEVICE_CONFIG_FULL_SPEED | DEVICE_CONFIG_SCATTER_GATHER;
            &&& after.registers[Register::DeviceControl] == connected_control(
                bank.registers[Register::DeviceControl],
            )
            &&& after.registers[Register::InterruptMask] == core_interrupts()
            &&& after.registers[Register::DeviceAllEpInterruptMask]
                == bank.registers[Register::DeviceAllEpInterruptMask]
            &&& config & set == set
            &&& config & !set == bank.registers[Register::DeviceConfig] & !set
        }),
{
    broadcast use lemma_run_concat;

    assert(init_actions(phy) =~= init_actions(phy).take(10) + after_reset_actions());
    let first = seq![
        Action::Write { register: Register::Configuration, value: core_configuration() },
    ];
    let started = bank.run(first);
    let configured = started.run(configure_actions());
    let cleared = configured.run(clear_all_actions());
    law_run_spares(bank, first, Register::DeviceAllEpInterruptMask);
    law_run_spares(bank, first, Register::DeviceConfig);
    law_run_spares(bank, first, Register::DeviceControl);
    lemma_configure(started);
    law_run_spares(configured, clear_all_actions(), Register::DeviceControl);
    law_run_spares(configured, clear_all_actions(), Register::DeviceAllEpInterruptMask);
    law_run_spares(configured, clear_all_actions(), Register::DeviceConfig);
    lemma_connect(cleared);
    let left = bank.registers[Register::DeviceControl];
    let previous = modified(left, 0, DEVICE_CONTROL_DISCONNECT);
    assert(connected_control(previous) == connected_control(left)) by (bit_vector)
        requires
            previous == modified(left, 0, DEVICE_CONTROL_DISCONNECT),
    ;
}

proof fn lemma_configure(bank: Bank)
    ensures
        ({
            let after = bank.run(configure_actions());
            let config = after.registers[Register::DeviceConfig];
            let set = DEVICE_CONFIG_FULL_SPEED | DEVICE_CONFIG_SCATTER_GATHER;
            &&& after.registers[Register::DeviceAllEpInterruptMask]
                == bank.registers[Register::DeviceAllEpInterruptMask]
            &&& after.registers[Register::DeviceControl] == modified(
                bank.registers[Register::DeviceControl],
                0,
                DEVICE_CONTROL_DISCONNECT,
            )
            &&& config & set == set
            &&& config & !set == bank.registers[Register::DeviceConfig] & !set
        }),
{
    law_run_spares(bank, configure_actions(), Register::DeviceAllEpInterruptMask);
    let first = configure_actions().take(3);
    assert(configure_actions() =~= first + data_fifo_actions());
    law_run_concat(bank, first, data_fifo_actions());
    law_run_spares(bank.run(first), data_fifo_actions(), Register::DeviceConfig);
    law_run_spares(bank.run(first), data_fifo_actions(), Register::DeviceControl);
    let before = bank.registers[Register::DeviceConfig];
    let set = DEVICE_CONFIG_FULL_SPEED | DEVICE_CONFIG_SCATTER_GATHER;
    let config = modified(before, 0, set);
    assert(bank.run(first).registers[Register::DeviceConfig] == config && bank.run(
        first,
    ).registers[Register::DeviceControl] == modified(
        bank.registers[Register::DeviceControl],
        0,
        DEVICE_CONTROL_DISCONNECT,
    )) by {
        reveal_with_fuel(Bank::run_first, 4);
    }
    assert(config & set == set && config & !set == before & !set) by (bit_vector)
        requires
            config == modified(before, 0, set),
    ;
}

proof fn lemma_connect(bank: Bank)
    ensures
        ({
            let after = bank.run(connect_actions());
            &&& after.registers[Register::DeviceControl] == connected_control(
                bank.registers[Register::DeviceControl],
            )
            &&& after.registers[Register::InterruptMask] == core_interrupts()
            &&& after.registers[Register::DeviceAllEpInterruptMask]
                == bank.registers[Register::DeviceAllEpInterruptMask]
            &&& after.registers[Register::DeviceConfig] == bank.registers[Register::DeviceConfig]
        }),
{
    law_run_spares(bank, connect_actions(), Register::DeviceAllEpInterruptMask);
    law_run_spares(bank, connect_actions(), Register::DeviceConfig);
    reveal_with_fuel(Bank::run_first, 9);
    let before = bank.registers[Register::DeviceControl];
    let naks = DEVICE_CONTROL_CLEAR_OUT_NAK | DEVICE_CONTROL_CLEAR_IN_NAK;
    let done = modified(
        modified(before, 0, DEVICE_CONTROL_POWER_ON_DONE),
        DEVICE_CONTROL_POWER_ON_DONE,
        0,
    );
    let control = modified(modified(done, 0, naks), DEVICE_CONTROL_DISCONNECT, 0);
    assert(bank.run(connect_actions()).registers[Register::DeviceControl] == control);
    assert(control == connected_control(before)) by (bit_vector)
        requires
            naks == DEVICE_CONTROL_CLEAR_OUT_NAK | DEVICE_CONTROL_CLEAR_IN_NAK,
            done == modified(
                modified(before, 0, DEVICE_CONTROL_POWER_ON_DONE),
                DEVICE_CONTROL_POWER_ON_DONE,
                0,
            ),
            control == modified(modified(done, 0, naks), DEVICE_CONTROL_DISCONNECT, 0),
    ;
}

// Endpoint 1.

/// What a client puts as a slice is what a reader of the frame gets: the words
/// that endpoint 1 sends hold the bytes from the start on, and the IN descriptor
/// is handed to the DMA engine.
pub proof fn law_slice_sent(usb: USB, bank: Bank, slice: Seq<u8>)
    requires
        usb.ep1_in_buffer is Some,
        bank.wf(),
        slice.len() <= 64,
    ensures
        ({
            let after = bank.run(usb.transmit_actions(words_of(slice)));
            &&& bytes_of(after.ep1_in).take(slice.len() as int) == slice
            &&& after.ep1_in.len() == 16
            &&& handed_over(after.flags[DmaSlot::Ep1In])
            &&& byte_count(after.flags[DmaSlot::Ep1In]) == 64
        }),
{
    broadcast use lemma_run_concat;

    let words = words_of(slice);
    law_run_store_words(bank, Buffer::Ep1In, words);
    lemma_frame_flags();
    reveal_with_fuel(Bank::run_first, 3);
    let after = bank.run(usb.transmit_actions(words));
    assert(after.ep1_in == words + bank.ep1_in.skip(words.len() as int));
    law_unpack_pack(slice);
    assert forall|i: int| 0 <= i < slice.len() implies bytes_of(after.ep1_in)[i] == slice[i] by {
        assert(bytes_of(words)[i] == bytes_of(words).take(slice.len() as int)[i]);
        assert(after.ep1_in[i / 4] == words[i / 4]);
    }
    assert(bytes_of(after.ep1_in).take(slice.len() as int) =~= slice);
}

/// A frame that a client puts is what endpoint 1 sends.
pub proof fn law_frame_sent(usb: USB, bank: Bank, frame: Seq<u32>)
    requires
        usb.ep1_in_buffer is Some,
        bank.wf(),
        frame.len() == 16,
    ensures
        bank.run(usb.transmit_actions(frame)).ep1_in == frame,
{
    broadcast use lemma_run_concat;

    law_run_store_words(bank, Buffer::Ep1In, frame);
    reveal_with_fuel(Bank::run_first, 3);
    assert(frame + bank.ep1_in.skip(16) =~= frame);
}

/// To put a frame and to put the slice of its bytes do the same.
pub proof fn law_frame_as_slice(usb: USB, frame: Seq<u32>)
    requires
        frame.len() == 16,
    ensures
        bytes_of(frame).len() == 64,
        usb.transmit_actions(words_of(bytes_of(frame))) == usb.transmit_actions(frame),
{
    law_pack_unpack(frame);
}

/// While a frame is with the DMA engine no other can be put: after a transmission
/// was started, endpoint 1 is not ready until the engine has changed the flags.
pub proof fn law_busy_after_put(usb: USB, bank: Bank, words: Seq<u32>)
    ensures
        !usb.tx_ready(bank.run(usb.transmit_actions(words)).flags[DmaSlot::Ep1In]),
{
    broadcast use lemma_run_concat;

    lemma_frame_flags();
    reveal_with_fuel(Bank::run_first, 3);
    assert(DESC_HOST_READY != DESC_DMA_DONE && DESC_HOST_READY != DESC_HOST_BUSY);
}

/// Setting up endpoint 1 leaves it ready to take a frame.
pub proof fn law_ready_after_setup(usb: USB, bank: Bank)
    requires
        usb.has_ep1_in(),
    ensures
        usb.tx_ready(bank.run(usb.setup_u2f_actions()).flags[DmaSlot::Ep1In]),
{
    broadcast use lemma_run_concat;

    reveal_with_fuel(Bank::run_first, 4);
    assert((DESC_LAST | DESC_HOST_BUSY | DESC_IOC) & DESC_STATUS_MASK == DESC_HOST_BUSY)
        by (bit_vector);
}

proof fn lemma_frame_flags()
    ensures
        handed_over(frame_flags()),
        byte_count(frame_flags()) == 64,
{
    assert(((DESC_LAST | DESC_HOST_READY | DESC_IOC) | U2F_REPORT_SIZE as u32) & DESC_STATUS_MASK
        == DESC_HOST_READY && ((DESC_LAST | DESC_HOST_READY | DESC_IOC) | U2F_REPORT_SIZE as u32)
        & 0xffff == 64) by (bit_vector);
}

} // verus!
