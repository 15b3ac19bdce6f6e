//! Control transfers on endpoint 0, from what the registers and the received words
//! show to what is left in the registers and in shared memory.

use vstd::prelude::*;

use crate::action::{store_words, Action, Buffer, DmaSlot, Register};
use crate::bank::{law_run_store_words, Bank};
use crate::bytes::{bytes_of, law_bytes_shifted, law_words_shifted, words_of};
use crate::constants::DEVICE_CONFIG_ADDRESS;
use crate::descriptor::u2f_report;
use crate::endpoint0::send_flags;
use crate::handler::{Ep0Event, Snapshot};
use crate::interrupt::TableCase;
use crate::laws::dispatch::{
    after_core, lemma_acknowledged, lemma_core, lemma_dispatch, lemma_ep0_cleared,
};
use crate::laws::frames::law_setup_u2f;
use crate::laws::interrupts::lemma_after_clearing;
use crate::laws::values::{lemma_modified, lemma_send_value, lemma_values};
use crate::laws::wire::{law_device_descriptor, law_setup_packet};
use crate::laws::{law_interrupt_keeps, lemma_run_concat};
use crate::request::SetupRequest;
use crate::setup::{reply_length, u2f_interface};
use crate::usb::{USBState, USB};

verus! {

// What an interrupt of endpoint 0 brings.

/// The OUT descriptor that an interrupt is about: the one that was set up to receive,
/// if an OUT interrupt is pending and the transfer is complete, and else the one that
/// received last.
pub open spec fn packet_slot(usb: USB, snapshot: Snapshot) -> usize {
    if snapshot.device_all_ep_interrupt & 0x0001_0000 != 0 && snapshot.out0_interrupt & 0x1 != 0 {
        usb.next_ep0_out_idx
    } else {
        usb.last_ep0_out_idx
    }
}

/// The OUT descriptor that receives after an interrupt: the other one, if the one
/// that was set up has received.
pub open spec fn next_slot(usb: USB, snapshot: Snapshot) -> usize {
    if snapshot.device_all_ep_interrupt & 0x0001_0000 != 0 && snapshot.out0_interrupt & 0x1 != 0 {
        if usb.next_ep0_out_idx == 0 {
            1
        } else {
            0
        }
    } else {
        usb.next_ep0_out_idx
    }
}

/// An interrupt is for endpoint 0: an endpoint interrupt of either direction, and
/// one of endpoint 0 is pending.
pub open spec fn for_endpoint0(snapshot: Snapshot) -> bool {
    &&& snapshot.interrupt_status & 0x000c_0000 != 0
    &&& snapshot.device_all_ep_interrupt & 0x0001_0001 != 0
}

/// A packet is complete: either with setup, or without it and before the status
/// phase.
pub open spec fn packet_complete(snapshot: Snapshot) -> bool {
    &&& snapshot.out0_interrupt & 0x01 != 0
    &&& snapshot.out0_interrupt & 0x08 != 0 || snapshot.out0_interrupt & 0x20 == 0
}

/// The descriptor in question holds a SETUP packet.
pub open spec fn holds_setup(usb: USB, snapshot: Snapshot) -> bool {
    snapshot.ep0_out_descriptors@[packet_slot(usb, snapshot) as int].flags & 0x0100_0000
        == 0x0100_0000
}

/// An interrupt brings a SETUP packet: a complete packet in a descriptor that says so.
/// Past the first stage, only an OUT interrupt counts. There is no USB reset.
pub open spec fn brings_setup(usb: USB, snapshot: Snapshot) -> bool {
    &&& for_endpoint0(snapshot)
    &&& packet_complete(snapshot)
    &&& holds_setup(usb, snapshot)
    &&& usb.state == USBState::WaitingForSetupPacket || snapshot.device_all_ep_interrupt
        & 0x0001_0000 != 0
    &&& snapshot.interrupt_status & 0x1000 == 0
}

/// The request that the packet holds, from the words that received it.
pub open spec fn packet(usb: USB, snapshot: Snapshot) -> SetupRequest {
    let words = snapshot.ep0_out_buffers@[packet_slot(usb, snapshot) as int]@;
    SetupRequest {
        bm_request_type: (words[0] & 0xff) as u8,
        b_request: ((words[0] >> 8) & 0xff) as u8,
        w_value: (words[0] >> 16) as u16,
        w_index: (words[1] & 0xffff) as u16,
        w_length: (words[1] >> 16) as u16,
    }
}

/// Endpoint 0 has its memory, as after `init`.
pub open spec fn equipped(usb: USB) -> bool {
    &&& usb.ep0_out_descriptors is Some
    &&& usb.ep0_out_buffers is Some
    &&& usb.ep0_in_descriptors is Some
    &&& usb.ep0_in_buffers is Some
}

/// The driver with its OUT descriptors in the roles that an interrupt gives them.
pub open spec fn turned(usb: USB, snapshot: Snapshot) -> USB {
    USB {
        next_ep0_out_idx: next_slot(usb, snapshot),
        last_ep0_out_idx: packet_slot(usb, snapshot),
        ..usb
    }
}

/// What an interrupt leaves before its packet or phase is seen to: the core's bits
/// are handled, the pending interrupts are cleared as they were read, the hardware
/// receives into the other OUT descriptor, if one has received, and endpoint 0 IN is
/// enabled again, if what it had to send is sent.
pub open spec fn noted(usb: USB, bank: Bank, snapshot: Snapshot) -> Bank {
    let pending = snapshot.device_all_ep_interrupt;
    let core = after_core(bank, snapshot);
    let out_cleared = if pending & 0x0001_0000 != 0 {
        core.with_register(Register::OutInterrupt(0), snapshot.out0_interrupt)
    } else {
        core
    };
    let cleared = if pending & 0x0000_0001 != 0 {
        out_cleared.with_register(Register::InInterrupt(0), snapshot.in0_interrupt)
    } else {
        out_cleared
    };
    let turned = if pending & 0x0001_0000 != 0 && snapshot.out0_interrupt & 0x1 != 0 {
        cleared.with_register(
            Register::OutDmaAddress(0),
            (usb.ep0_out_descriptors->0 + 8 * next_slot(usb, snapshot)) as u32,
        )
    } else {
        cleared
    };
    if usb.state != USBState::WaitingForSetupPacket && pending & 0x0000_0001 != 0
        && snapshot.in0_interrupt & 0x1 != 0 {
        turned.with_register(Register::InControl(0), 0x8000_0000)
    } else {
        turned
    }
}

proof fn lemma_noted(usb: USB, bank: Bank, snapshot: Snapshot)
    requires
        usb.wf(),
        usb.ep0_out_descriptors is Some,
    ensures
        ({
            let pending = snapshot.ep0_pending();
            bank.run(snapshot.core_actions()).run(
                snapshot.ep0_clear_actions(pending.0, pending.1),
            ).run(usb.receive_actions(pending.0, snapshot)).run(
                usb.in_completed_actions(pending.1, snapshot),
            ) == noted(usb, bank, snapshot)
        }),
{
    lemma_dispatch(snapshot);
    lemma_core(bank, snapshot);
    let pending = snapshot.ep0_pending();
    lemma_ep0_cleared(after_core(bank, snapshot), pending.0, pending.1, snapshot);
    reveal_with_fuel(Bank::run_first, 2);
}

/// What an interrupt of endpoint 0 without a USB reset does: it notes what has
/// happened, then does what the event calls for, then acknowledges.
proof fn lemma_ep0(usb: USB, bank: Bank, snapshot: Snapshot)
    requires
        usb.wf(),
        usb.ep0_out_descriptors is Some,
        for_endpoint0(snapshot),
        snapshot.interrupt_status & 0x1000 == 0,
    ensures
        ({
            let out = snapshot.device_all_ep_interrupt & 0x0001_0000 != 0;
            let event = Ep0Event::of(
                usb.state,
                out,
                TableCase::of(snapshot.out0_interrupt),
                holds_setup(usb, snapshot),
            );
            let handled = turned(usb, snapshot).event_result(event, snapshot);
            let result = usb.interrupt_result(snapshot);
            &&& result.0 == handled.0
            &&& bank.run(result.1) == noted(usb, bank, snapshot).run(handled.1).with_register(
                Register::InterruptStatus,
                snapshot.interrupt_status,
            )
            &&& usb.accepts(snapshot) == (event != Ep0Event::NotSetup && (event == Ep0Event::Setup
                ==> turned(usb, snapshot).setup_supported(snapshot.ep0_out_buffers)))
        }),
{
    broadcast use lemma_run_concat;

    lemma_dispatch(snapshot);
    lemma_noted(usb, bank, snapshot);
    lemma_acknowledged(usb, bank, snapshot);
    let pending = snapshot.ep0_pending();
    let received = usb.received(pending.0, snapshot);
    assert(received == turned(usb, snapshot));
    lemma_after_clearing(usb, pending.0, pending.1, snapshot);
    let handled = received.event_result(usb.ep0_event(pending.0, snapshot), snapshot);
    let done = noted(usb, bank, snapshot).run(handled.1);
    assert(bank.run(snapshot.core_actions()).run(usb.endpoints_result(snapshot).1) == done);
    assert(done.run(seq![]) == done);
}

proof fn lemma_setup(usb: USB, bank: Bank, snapshot: Snapshot)
    requires
        usb.wf(),
        usb.ep0_out_descriptors is Some,
        usb.ep0_out_buffers is Some,
        brings_setup(usb, snapshot),
    ensures
        ({
            let case = TableCase::of(snapshot.out0_interrupt);
            let handled = turned(usb, snapshot).request_result(case, packet(usb, snapshot));
            let result = usb.interrupt_result(snapshot);
            &&& result.0 == handled.0
            &&& bank.run(result.1) == noted(usb, bank, snapshot).run(handled.1).with_register(
                Register::InterruptStatus,
                snapshot.interrupt_status,
            )
            &&& usb.accepts(snapshot) == turned(usb, snapshot).supports(packet(usb, snapshot))
            &&& (case == TableCase::C) == (snapshot.out0_interrupt & 0x08 != 0)
        }),
{
    lemma_ep0(usb, bank, snapshot);
    let words = snapshot.ep0_out_buffers@[packet_slot(usb, snapshot) as int]@;
    law_setup_packet(words);
    assert(turned(usb, snapshot).received_request(snapshot.ep0_out_buffers) == packet(
        usb,
        snapshot,
    ));
}

// What the stages leave.

/// What starting to send leaves: transmit FIFO 0 is flushed, the hardware points to
/// the IN descriptors, both directions are enabled, and both interrupts of endpoint
/// 0 are unmasked. The NAKs are cleared if the setup phase is done. The OUT
/// descriptor in turn may receive 64 bytes.
pub open spec fn sending(
    bank: Bank,
    in_descriptors: u32,
    slot: usize,
    setup_done: bool,
) -> Bank {
    let control: u32 = if setup_done {
        0x8400_0000
    } else {
        0x8000_0000
    };
    let mask = Register::DeviceAllEpInterruptMask;
    bank.with_register(Register::Reset, 0x20).with_register(
        Register::InDmaAddress(0),
        in_descriptors,
    ).with_register(Register::InControl(0), control).with_flags(
        DmaSlot::Ep0Out(slot),
        0x0a00_0040,
    ).with_register(Register::OutControl(0), control).with_register(
        mask,
        bank.registers[mask] | 0x0001_0001,
    )
}

/// What a stall leaves: both directions of endpoint 0 are stalled, transmit FIFO 0 is
/// flushed, and of endpoint 0 only the OUT interrupt is unmasked. The OUT descriptor
/// in turn may receive 64 bytes.
pub open spec fn stalling(bank: Bank, slot: usize) -> Bank {
    let mask = Register::DeviceAllEpInterruptMask;
    bank.with_flags(DmaSlot::Ep0Out(slot), 0x0a00_0040).with_register(
        mask,
        (bank.registers[mask] & !0x0000_0001u32) | 0x0001_0000,
    ).with_register(Register::OutControl(0), 0x8020_0000).with_register(
        Register::Reset,
        0x20,
    ).with_register(Register::InControl(0), 0x8020_0000)
}

/// What waiting for a SETUP packet leaves: the OUT descriptor in turn may receive 64
/// bytes, of endpoint 0 only the OUT interrupt is unmasked, and OUT is enabled with
/// its NAK cleared.
pub open spec fn expecting(bank: Bank, slot: usize) -> Bank {
    let mask = Register::DeviceAllEpInterruptMask;
    bank.with_flags(DmaSlot::Ep0Out(slot), 0x0a00_0040).with_register(
        mask,
        (bank.registers[mask] & !0x0000_0001u32) | 0x0001_0000,
    ).with_register(Register::OutControl(0), 0x8400_0000)
}

/// A data phase starts as [`sending`] says, in whatever case: only in case C are the
/// NAKs cleared.
pub proof fn law_data_phase_started(usb: USB, bank: Bank, case: TableCase)
    requires
        usb.ep0_in_descriptors is Some,
        usb.ep0_out_descriptors is Some,
    ensures
        bank.run(usb.data_phase_actions(case)) == sending(
            bank,
            usb.ep0_in_descriptors->0,
            usb.next_ep0_out_idx,
            case == TableCase::C,
        ),
{
    broadcast use lemma_run_concat;

    lemma_values();
    lemma_modified(bank.registers[Register::DeviceAllEpInterruptMask], 0, 0x0001_0001);
    reveal_with_fuel(Bank::run_first, 3);
}

/// A stall leaves what [`stalling`] says, and changes nothing else.
pub proof fn law_stalled(usb: USB, bank: Bank)
    requires
        usb.ep0_out_descriptors is Some,
    ensures
        bank.run(usb.stall_actions()) == stalling(bank, usb.next_ep0_out_idx),
{
    broadcast use lemma_run_concat;

    lemma_values();
    reveal_with_fuel(Bank::run_first, 3);
}

/// Waiting for a SETUP packet leaves what [`expecting`] says, and changes nothing
/// else.
pub proof fn law_setup_expected(usb: USB, bank: Bank)
    requires
        usb.ep0_out_descriptors is Some,
    ensures
        bank.run(usb.expect_setup_actions()) == expecting(bank, usb.next_ep0_out_idx),
{
    broadcast use lemma_run_concat;

    lemma_values();
    reveal_with_fuel(Bank::run_first, 3);
}

proof fn lemma_no_bytes()
    ensures
        send_flags(0) == 0x0e00_0000,
{
    lemma_send_value(0);
    assert(0x0e00_0000u32 | 0u16 as u32 == 0x0e00_0000u32) by (bit_vector);
}

/// A status phase hands the IN descriptor over with no bytes, and then starts as a
/// data phase does.
pub proof fn law_status_phase_started(usb: USB, bank: Bank, case: TableCase)
    requires
        equipped(usb),
    ensures
        bank.run(usb.status_phase_actions(case)) == sending(
            bank.with_addr(DmaSlot::Ep0In(0), usb.ep0_in_buffers->0).with_flags(
                DmaSlot::Ep0In(0),
                0x0e00_0000,
            ),
            usb.ep0_in_descriptors->0,
            usb.next_ep0_out_idx,
            case == TableCase::C,
        ),
{
    broadcast use lemma_run_concat;

    let prepared = bank.with_addr(DmaSlot::Ep0In(0), usb.ep0_in_buffers->0).with_flags(
        DmaSlot::Ep0In(0),
        0x0e00_0000,
    );
    lemma_no_bytes();
    law_data_phase_started(usb, prepared, case);
    assert(usb.data_phase_actions(case) == usb.start_in_actions(case, usb.ep0_in_descriptors->0));
    reveal_with_fuel(Bank::run_first, 2);
}

// Answers.

/// An interrupt is accepted and ends with a reply of `len` bytes of `data` on its
/// way, or of as many as the host asked for in the last field of its packet, if those
/// are fewer. The data is in the IN buffer, the least significant byte of each word
/// first, and the words behind it are what they were. The IN descriptor is handed
/// over with the length of the reply, last of its list, short and to be reported.
/// Nothing else changes but by the bookkeeping and by starting to send.
pub open spec fn replies(
    usb: USB,
    bank: Bank,
    snapshot: Snapshot,
    data: Seq<u8>,
    len: int,
) -> bool {
    let result = usb.interrupt_result(snapshot);
    let after = bank.run(result.1);
    let limit = snapshot.ep0_out_buffers@[packet_slot(usb, snapshot) as int]@[1] >> 16;
    let n = if len < limit {
        len
    } else {
        limit as int
    };
    &&& usb.accepts(snapshot)
    &&& result.0 == (USB { state: USBState::DataStageIn, ..turned(usb, snapshot) })
    &&& after == sending(
        (Bank { ep0_in: after.ep0_in, ..noted(usb, bank, snapshot) }).with_flags(
            DmaSlot::Ep0In(0),
            0x0e00_0000u32 | n as u32,
        ),
        usb.ep0_in_descriptors->0,
        next_slot(usb, snapshot),
        snapshot.out0_interrupt & 0x08 != 0,
    ).with_register(Register::InterruptStatus, snapshot.interrupt_status)
    &&& after.ep0_in.len() == 64
    &&& forall|i: int|
        0 <= i < data.len() ==> (#[trigger] data[i]) == (after.ep0_in[i / 4] >> ((8 * (i
            % 4)) as u32)) & 0xff
    &&& forall|i: int|
        0 <= i < 64 && data.len() <= 4 * i ==> #[trigger] after.ep0_in[i] == bank.ep0_in[i]
    &&& len <= data.len() ==> {
        &&& (after.flags[DmaSlot::Ep0In(0)] & 0xffff) == n
        &&& bytes_of(after.ep0_in).take(n) == data.take(n)
    }
}

proof fn lemma_reply(
    usb: USB,
    bank: Bank,
    case: TableCase,
    data: Seq<u8>,
    len: int,
    w_length: u16,
)
    requires
        equipped(usb),
        bank.wf(),
        data.len() <= 256,
        0 <= len <= 0xffff,
    ensures
        bank.run(usb.reply_actions(case, data, len, w_length)) == sending(
            (Bank {
                ep0_in: words_of(data) + bank.ep0_in.skip(words_of(data).len() as int),
                ..bank
            }).with_flags(
                DmaSlot::Ep0In(0),
                0x0e00_0000u32 | reply_length(len, w_length) as u32,
            ),
            usb.ep0_in_descriptors->0,
            usb.next_ep0_out_idx,
            case == TableCase::C,
        ),
{
    broadcast use lemma_run_concat;

    let words = words_of(data);
    let n = reply_length(len, w_length);
    law_run_store_words(bank, Buffer::Ep0In, words);
    lemma_send_value(n);
    let stored = bank.run(store_words(Buffer::Ep0In, words));
    let armed = stored.run(usb.arm_in(n));
    assert(armed == stored.with_flags(DmaSlot::Ep0In(0), 0x0e00_0000u32 | n as u32)) by {
        reveal_with_fuel(Bank::run_first, 2);
    }
    law_data_phase_started(usb, armed, case);
}

proof fn lemma_replied(usb: USB, bank: Bank, snapshot: Snapshot, data: Seq<u8>, len: int)
    requires
        usb.wf(),
        equipped(usb),
        bank.wf(),
        brings_setup(usb, snapshot),
        data.len() <= 256,
        0 <= len <= 0xffff,
        turned(usb, snapshot).supports(packet(usb, snapshot)),
        ({
            let case = TableCase::of(snapshot.out0_interrupt);
            let request = packet(usb, snapshot);
            turned(usb, snapshot).request_result(case, request) == (
                turned(usb, snapshot).in_state(USBState::DataStageIn),
                turned(usb, snapshot).reply_actions(case, data, len, request.w_length),
            )
        }),
    ensures
        replies(usb, bank, snapshot, data, len),
{
    let case = TableCase::of(snapshot.out0_interrupt);
    let w_length = packet(usb, snapshot).w_length;
    let limit = snapshot.ep0_out_buffers@[packet_slot(usb, snapshot) as int]@[1];
    law_setup_packet(snapshot.ep0_out_buffers@[packet_slot(usb, snapshot) as int]@);
    assert(w_length == limit >> 16);
    lemma_setup(usb, bank, snapshot);
    let before = noted(usb, bank, snapshot);
    lemma_reply(turned(usb, snapshot), before, case, data, len, w_length);
    let words = words_of(data);
    let sent = words + bank.ep0_in.skip(words.len() as int);
    let after = bank.run(usb.interrupt_result(snapshot).1);
    assert(after.ep0_in == sent);
    assert forall|i: int| 0 <= i < data.len() implies (#[trigger] data[i]) == (sent[i / 4] >> ((8
        * (i % 4)) as u32)) & 0xff by {
        law_words_shifted(data, i / 4, i % 4);
    }
    if words.len() > 0 {
        law_words_shifted(data, 0, 0);
    }
    let n = reply_length(len, w_length);
    assert((0x0e00_0000u32 | n as u32) & 0xffff == n) by (bit_vector);
    if len <= data.len() {
        assert forall|i: int| 0 <= i < n implies bytes_of(sent)[i] == data[i] by {
            law_bytes_shifted(sent, i);
            assert(data[i] == (sent[i / 4] >> ((8 * (i % 4)) as u32)) & 0xff);
        }
        assert(bytes_of(sent).take(n as int) =~= data.take(n as int));
    }
}

/// A host that asks for the device descriptor (request type 0x80, request 6, kind 1)
/// is sent the 18 bytes of it, with the class and the ids that the driver has.
pub proof fn law_device_descriptor_sent(usb: USB, bank: Bank, snapshot: Snapshot)
    requires
        usb.wf(),
        equipped(usb),
        bank.wf(),
        brings_setup(usb, snapshot),
        packet(usb, snapshot).bm_request_type == 0x80,
        packet(usb, snapshot).b_request == 6,
        packet(usb, snapshot).w_value / 0x100 == 1,
    ensures
        replies(
            usb,
            bank,
            snapshot,
            seq![
                18u8,
                1,
                0x00,
                0x02,
                usb.device_class,
                0,
                0,
                64,
                (usb.vendor_id & 0xff) as u8,
                (usb.vendor_id >> 8) as u8,
                (usb.product_id & 0xff) as u8,
                (usb.product_id >> 8) as u8,
                0x00,
                0x01,
                1,
                2,
                0,
                1,
            ],
            18,
        ),
{
    law_device_descriptor(usb);
    lemma_replied(
        usb,
        bank,
        snapshot,
        seq![
            18u8,
            1,
            0x00,
            0x02,
            usb.device_class,
            0,
            0,
            64,
            (usb.vendor_id & 0xff) as u8,
            (usb.vendor_id >> 8) as u8,
            (usb.product_id & 0xff) as u8,
            (usb.product_id >> 8) as u8,
            0x00,
            0x01,
            1,
            2,
            0,
            1,
        ],
        18,
    );
}

/// A host that asks for the configuration descriptor (kind 2) is sent what the
/// driver's buffer for it holds, as many bytes of it as count.
pub proof fn law_configuration_descriptor_sent(usb: USB, bank: Bank, snapshot: Snapshot)
    requires
        usb.wf(),
        equipped(usb),
        bank.wf(),
        brings_setup(usb, snapshot),
        packet(usb, snapshot).bm_request_type == 0x80,
        packet(usb, snapshot).b_request == 6,
        packet(usb, snapshot).w_value / 0x100 == 2,
    ensures
        usb.configuration_descriptor matches Some(configuration) ==> replies(
            usb,
            bank,
            snapshot,
            configuration@,
            usb.configuration_total_length as int,
        ),
        usb.configuration_descriptor is None ==> replies(usb, bank, snapshot, Seq::empty(), 0),
{
    match usb.configuration_descriptor {
        Some(configuration) => lemma_replied(
            usb,
            bank,
            snapshot,
            configuration@,
            usb.configuration_total_length as int,
        ),
        None => lemma_replied(usb, bank, snapshot, Seq::empty(), 0),
    }
}

/// A host that asks for the interface descriptor (kind 4) is sent that of the U2F
/// interface: number 0, two endpoints, class 3, string 6.
pub proof fn law_interface_descriptor_sent(usb: USB, bank: Bank, snapshot: Snapshot)
    requires
        usb.wf(),
        equipped(usb),
        bank.wf(),
        brings_setup(usb, snapshot),
        packet(usb, snapshot).bm_request_type == 0x80,
        packet(usb, snapshot).b_request == 6,
        packet(usb, snapshot).w_value / 0x100 == 4,
    ensures
        replies(
            usb,
            bank,
            snapshot,
            seq![9u8, 4, 0, 0, 2, 3, 0, 0, 6],
            9,
        ),
{
    assert(u2f_interface().wire() =~= seq![9u8, 4, 0, 0, 2, 3, 0, 0, 6]);
    lemma_replied(
        usb,
        bank,
        snapshot,
        seq![9u8, 4, 0, 0, 2, 3, 0, 0, 6],
        9,
    );
}

/// A host that asks for a string descriptor (kind 3) is sent the one with the index
/// that it names in the low byte of the value.
pub proof fn law_string_descriptor_sent(usb: USB, bank: Bank, snapshot: Snapshot)
    requires
        usb.wf(),
        equipped(usb),
        bank.wf(),
        brings_setup(usb, snapshot),
        packet(usb, snapshot).bm_request_type == 0x80,
        packet(usb, snapshot).b_request == 6,
        packet(usb, snapshot).w_value / 0x100 == 3,
        usb.strings is Some,
        packet(usb, snapshot).w_value % 0x100 < usb.strings->0@.len(),
    ensures
        ({
            let string = usb.strings->0@[(packet(usb, snapshot).w_value % 0x100) as int];
            replies(usb, bank, snapshot, string.wire(), 2 + 2 * string.b_string@.len() as int)
        }),
{
    let string = usb.strings->0@[(packet(usb, snapshot).w_value % 0x100) as int];
    assert(string.wf());
    lemma_replied(usb, bank, snapshot, string.wire(), string.wire().len() as int);
}

/// A host that asks for the configuration (request 8) is sent the chosen one.
pub proof fn law_configuration_value_sent(usb: USB, bank: Bank, snapshot: Snapshot)
    requires
        usb.wf(),
        equipped(usb),
        bank.wf(),
        brings_setup(usb, snapshot),
        packet(usb, snapshot).bm_request_type == 0x80,
        packet(usb, snapshot).b_request == 8,
    ensures
        replies(
            usb,
            bank,
            snapshot,
            seq![usb.configuration_current_value],
            1,
        ),
{
    lemma_replied(
        usb,
        bank,
        snapshot,
        seq![usb.configuration_current_value],
        1,
    );
}

/// A host that asks for the status of the device (request 0) is sent two zero bytes.
pub proof fn law_device_status_sent(usb: USB, bank: Bank, snapshot: Snapshot)
    requires
        usb.wf(),
        equipped(usb),
        bank.wf(),
        brings_setup(usb, snapshot),
        packet(usb, snapshot).bm_request_type == 0x80,
        packet(usb, snapshot).b_request == 0,
    ensures
        replies(
            usb,
            bank,
            snapshot,
            seq![0u8, 0u8],
            2,
        ),
{
    lemma_replied(
        usb,
        bank,
        snapshot,
        seq![0u8, 0u8],
        2,
    );
}

/// A host that asks the interface (request type 0x81) for the report descriptor (kind
/// 0x22) with its exact length is sent it.
pub proof fn law_report_descriptor_sent(usb: USB, bank: Bank, snapshot: Snapshot)
    requires
        usb.wf(),
        equipped(usb),
        bank.wf(),
        brings_setup(usb, snapshot),
        packet(usb, snapshot).bm_request_type == 0x81,
        packet(usb, snapshot).b_request == 6,
        packet(usb, snapshot).w_value / 0x100 == 0x22,
        packet(usb, snapshot).w_length == 34,
    ensures
        replies(
            usb,
            bank,
            snapshot,
            u2f_report(),
            34,
        ),
{
    lemma_replied(
        usb,
        bank,
        snapshot,
        u2f_report(),
        34,
    );
}

/// The first thing a host asks for, from the raw registers on. Let the status show an
/// endpoint interrupt (bit 18 or 19) and no USB reset (bit 12), its other bits being
/// what they may, let an OUT interrupt of endpoint 0 be pending, with a transfer
/// complete and either setup or no status phase, and let the OUT descriptor that was
/// set up hold a SETUP packet whose words are a GET_DESCRIPTOR request to the device
/// for the device descriptor, of any length. Then the interrupt is cleared, the driver
/// is in the data stage, and as many bytes of the descriptor are on their way as the
/// upper half of the second word allows.
pub proof fn law_enumerated(usb: USB, bank: Bank, snapshot: Snapshot)
    requires
        usb.wf(),
        usb.ep0_out_descriptors is Some,
        usb.ep0_out_buffers is Some,
        usb.ep0_in_descriptors is Some,
        usb.ep0_in_buffers is Some,
        bank.wf(),
        snapshot.interrupt_status & 0x000c_0000 != 0,
        snapshot.interrupt_status & 0x0000_1000 == 0,
        snapshot.device_all_ep_interrupt & 0x0001_0000 != 0,
        snapshot.out0_interrupt & 0x01 != 0,
        snapshot.out0_interrupt & 0x08 != 0 || snapshot.out0_interrupt & 0x20 == 0,
        snapshot.ep0_out_descriptors@[usb.next_ep0_out_idx as int].flags & 0x0100_0000
            == 0x0100_0000,
        snapshot.ep0_out_buffers@[usb.next_ep0_out_idx as int]@[0] & 0xff00_ffff == 0x0100_0680,
    ensures
        ({
            let result = usb.interrupt_result(snapshot);
            let after = bank.run(result.1);
            let length = snapshot.ep0_out_buffers@[usb.next_ep0_out_idx as int]@[1] >> 16;
            let n = if length < 18 {
                length as int
            } else {
                18
            };
            &&& usb.accepts(snapshot)
            &&& result.0.state == USBState::DataStageIn
            &&& result.0.last_ep0_out_idx == usb.next_ep0_out_idx
            &&& result.0.next_ep0_out_idx == 1 - usb.next_ep0_out_idx
            &&& after.registers[Register::OutInterrupt(0)] == snapshot.out0_interrupt
            &&& after.registers[Register::InterruptStatus] == snapshot.interrupt_status
            &&& after.registers[Register::InDmaAddress(0)] == usb.ep0_in_descriptors->0
            &&& after.registers[Register::InControl(0)] & 0x8000_0000 != 0
            &&& after.flags[DmaSlot::Ep0In(0)] == 0x0e00_0000u32 | n as u32
            &&& bytes_of(after.ep0_in).take(n) == seq![
                18u8,
                1,
                0x00,
                0x02,
                usb.device_class,
                0,
                0,
                64,
                (usb.vendor_id & 0xff) as u8,
                (usb.vendor_id >> 8) as u8,
                (usb.product_id & 0xff) as u8,
                (usb.product_id >> 8) as u8,
                0x00,
                0x01,
                1,
                2,
                0,
                1,
            ].take(n)
        }),
{
    let pending = snapshot.device_all_ep_interrupt;
    let w0 = snapshot.ep0_out_buffers@[usb.next_ep0_out_idx as int]@[0];
    let request = packet(usb, snapshot);
    let value = w0 >> 16;
    law_setup_packet(snapshot.ep0_out_buffers@[usb.next_ep0_out_idx as int]@);
    assert(pending & 0x0001_0001 != 0 && w0 & 0xff == 0x80 && (w0 >> 8) & 0xff == 6 && value / 0x100
        == 1 && 0x8000_0000u32 & 0x8000_0000 != 0 && 0x8400_0000u32 & 0x8000_0000 != 0)
        by (bit_vector)
        requires
            pending & 0x0001_0000 != 0,
            w0 & 0xff00_ffff == 0x0100_0680,
            value == w0 >> 16,
    ;
    assert(request.w_value == value);
    law_device_descriptor_sent(usb, bank, snapshot);
}

// Orders.

/// An interrupt is accepted and ends with a status of no bytes on its way: the IN
/// descriptor is handed over with no bytes, last of its list, short and to be
/// reported. `prepared` is what is left before that, and `driver` is the driver then.
pub open spec fn confirms(
    usb: USB,
    bank: Bank,
    snapshot: Snapshot,
    driver: USB,
    prepared: Bank,
) -> bool {
    let result = usb.interrupt_result(snapshot);
    &&& usb.accepts(snapshot)
    &&& result.0 == driver
    &&& driver.state == USBState::NoDataStage
    &&& bank.run(result.1) == sending(
        prepared.with_addr(DmaSlot::Ep0In(0), usb.ep0_in_buffers->0).with_flags(
            DmaSlot::Ep0In(0),
            0x0e00_0000,
        ),
        usb.ep0_in_descriptors->0,
        next_slot(usb, snapshot),
        snapshot.out0_interrupt & 0x08 != 0,
    ).with_register(Register::InterruptStatus, snapshot.interrupt_status)
}

/// A host that sets the configuration (request type 0, request 9, no data) has the
/// low byte of the value taken for it, and nothing else of the driver changed but the
/// stage and the roles of the OUT descriptors. It gets a status of no bytes.
pub proof fn law_configuration_set(usb: USB, bank: Bank, snapshot: Snapshot)
    requires
        usb.wf(),
        equipped(usb),
        bank.wf(),
        brings_setup(usb, snapshot),
        packet(usb, snapshot).bm_request_type == 0x00,
        packet(usb, snapshot).b_request == 9,
        packet(usb, snapshot).w_length == 0,
    ensures
        confirms(
            usb,
            bank,
            snapshot,
            USB {
                state: USBState::NoDataStage,
                configuration_current_value: (packet(usb, snapshot).w_value % 0x100) as u8,
                ..turned(usb, snapshot)
            },
            noted(usb, bank, snapshot),
        ),
{
    lemma_setup(usb, bank, snapshot);
    law_status_phase_started(
        turned(usb, snapshot),
        noted(usb, bank, snapshot),
        TableCase::of(snapshot.out0_interrupt),
    );
}

/// The bank with an address in bits 10:4 of the device configuration, its other bits
/// being what they were.
pub open spec fn addressed(bank: Bank, address: u32) -> Bank {
    let config = Register::DeviceConfig;
    bank.with_register(config, (bank.registers[config] & !0x0000_07f0u32) | (address << 4))
}

/// The bank with endpoint 1 set up: OUT handed over for 64 bytes and enabled, IN with
/// the processor, both interrupts unmasked.
pub open spec fn with_endpoint1(usb: USB, bank: Bank) -> Bank {
    let mask = Register::DeviceAllEpInterruptMask;
    bank.with_flags(DmaSlot::Ep1Out, 0x0a00_0040).with_addr(
        DmaSlot::Ep1Out,
        usb.ep1_out_buffer->0,
    ).with_register(Register::OutDmaAddress(1), usb.ep1_out_descriptor->0).with_flags(
        DmaSlot::Ep1In,
        0xca00_0000,
    ).with_addr(DmaSlot::Ep1In, usb.ep1_in_buffer->0).with_register(
        Register::InDmaAddress(1),
        usb.ep1_in_descriptor->0,
    ).with_register(Register::OutControl(1), 0x840c_8040).with_register(
        Register::InControl(1),
        0x004c_8040,
    ).with_register(mask, bank.registers[mask] | 0x0002_0002)
}

/// A host that sets the address (request type 0, request 5, no data) has the low
/// seven bits of the value put into the device configuration and endpoint 1 set up.
/// It gets a status of no bytes, and of the driver only the stage and the roles of
/// the OUT descriptors change.
pub proof fn law_address_set(usb: USB, bank: Bank, snapshot: Snapshot)
    requires
        usb.wf(),
        equipped(usb),
        bank.wf(),
        brings_setup(usb, snapshot),
        usb.has_ep1_out(),
        usb.has_ep1_in(),
        packet(usb, snapshot).bm_request_type == 0x00,
        packet(usb, snapshot).b_request == 5,
        packet(usb, snapshot).w_length == 0,
    ensures
        confirms(
            usb,
            bank,
            snapshot,
            USB { state: USBState::NoDataStage, ..turned(usb, snapshot) },
            with_endpoint1(
                usb,
                addressed(
                    noted(usb, bank, snapshot),
                    (packet(usb, snapshot).w_value & 0x7f) as u32,
                ),
            ),
        ),
{
    broadcast use lemma_run_concat;

    lemma_setup(usb, bank, snapshot);
    let before = noted(usb, bank, snapshot);
    let driver = turned(usb, snapshot);
    let w_value = packet(usb, snapshot).w_value;
    let case = TableCase::of(snapshot.out0_interrupt);
    let address = (w_value & 0x7f) as u32;
    assert(address << 4 == 0x10 * (w_value % 0x80)) by (bit_vector)
        requires
            address == (w_value & 0x7f) as u32,
    ;
    let first = seq![
        Action::Modify {
            register: Register::DeviceConfig,
            clear: DEVICE_CONFIG_ADDRESS,
            set: (0x10 * (w_value % 0x80)) as u32,
        },
    ];
    let second = addressed(before, address);
    assert(before.run(first) == second) by {
        reveal_with_fuel(Bank::run_first, 2);
    }
    law_setup_u2f(driver, second);
    law_status_phase_started(driver, with_endpoint1(usb, second), case);
}

// Refusals.

/// An interrupt is accepted and ends with endpoint 0 stalled, the driver waiting for
/// the next SETUP packet. Nothing else changes but by the bookkeeping.
pub open spec fn stalls(usb: USB, bank: Bank, snapshot: Snapshot) -> bool {
    let result = usb.interrupt_result(snapshot);
    &&& usb.accepts(snapshot)
    &&& result.0 == (USB { state: USBState::WaitingForSetupPacket, ..turned(usb, snapshot) })
    &&& bank.run(result.1) == stalling(
        noted(usb, bank, snapshot),
        next_slot(usb, snapshot),
    ).with_register(Register::InterruptStatus, snapshot.interrupt_status)
}

/// A host that asks the device for a descriptor of any kind but 1 to 4, or that sets
/// the idle rate of the interface (request type 0x21, request 10), gets a stall.
pub proof fn law_request_stalled(usb: USB, bank: Bank, snapshot: Snapshot)
    requires
        usb.wf(),
        equipped(usb),
        brings_setup(usb, snapshot),
        ({
            let request = packet(usb, snapshot);
            ||| request.bm_request_type == 0x80 && request.b_request == 6 && !(1
                <= request.w_value / 0x100 <= 4)
            ||| request.bm_request_type == 0x21 && request.b_request == 10
        }),
    ensures
        stalls(usb, bank, snapshot),
{
    lemma_setup(usb, bank, snapshot);
    law_stalled(turned(usb, snapshot), noted(usb, bank, snapshot));
}

/// An interrupt is accepted and nothing is done about it but the bookkeeping; the
/// stage stays.
pub open spec fn passes(usb: USB, bank: Bank, snapshot: Snapshot) -> bool {
    let result = usb.interrupt_result(snapshot);
    &&& usb.accepts(snapshot)
    &&& result.0 == turned(usb, snapshot)
    &&& bank.run(result.1) == noted(usb, bank, snapshot).with_register(
        Register::InterruptStatus,
        snapshot.interrupt_status,
    )
}

/// Requests that are neither standard ones to the device or the interface nor class
/// ones to the interface are ignored, and so is a request for a string by a driver
/// without strings.
pub proof fn law_request_ignored(usb: USB, bank: Bank, snapshot: Snapshot)
    requires
        usb.wf(),
        equipped(usb),
        brings_setup(usb, snapshot),
        ({
            let request = packet(usb, snapshot);
            let kind = request.bm_request_type % 0x80;
            ||| kind != 0x00 && kind != 0x01 && kind != 0x21
            ||| request.bm_request_type == 0x80 && request.b_request == 6 && request.w_value
                / 0x100 == 3 && usb.strings is None
        }),
    ensures
        passes(usb, bank, snapshot),
{
    lemma_setup(usb, bank, snapshot);
    let before = noted(usb, bank, snapshot);
    assert(before.run(seq![]) == before);
}

/// The requests that the driver supports: of those to the device, GET_STATUS,
/// GET_CONFIGURATION, GET_DESCRIPTOR (of a string only if there is one), SET_ADDRESS
/// and SET_CONFIGURATION, the last two without data; of those to the interface,
/// GET_DESCRIPTOR for the report descriptor with its length, and SET_IDLE. Any
/// other kind of request is supported by being ignored.
pub proof fn law_supported(usb: USB, request: SetupRequest)
    ensures
        ({
            let kind = request.bm_request_type % 0x80;
            let to_host = request.bm_request_type >= 0x80;
            let code = request.b_request;
            usb.supports(request) == (if kind == 0x00 {
                if to_host {
                    ||| code == 0 || code == 8
                    ||| code == 6 && (request.w_value / 0x100 == 3 && usb.strings is Some
                        ==> request.w_value % 0x100 < usb.strings->0@.len())
                } else {
                    (code == 5 || code == 9) && request.w_length == 0
                }
            } else if kind == 0x01 {
                to_host && code == 6 && request.w_value / 0x100 == 0x22 && request.w_length == 34
            } else if kind == 0x21 {
                !to_host && code == 10
            } else {
                true
            })
        }),
{
}

/// An interrupt is accepted exactly if it is not for endpoint 0, or else if endpoint
/// 0 has its OUT descriptors and
///
/// - in the first stage, a complete packet is a SETUP packet;
/// - the request of a SETUP packet is supported.
pub proof fn law_accepted(usb: USB, snapshot: Snapshot)
    requires
        usb.wf(),
    ensures
        ({
            let counts = usb.state == USBState::WaitingForSetupPacket
                || snapshot.device_all_ep_interrupt & 0x0001_0000 != 0;
            let setup = packet_complete(snapshot) && counts && holds_setup(usb, snapshot);
            usb.accepts(snapshot) == (for_endpoint0(snapshot) ==> {
                &&& usb.ep0_out_descriptors is Some
                &&& usb.state == USBState::WaitingForSetupPacket && packet_complete(snapshot)
                    ==> holds_setup(usb, snapshot)
                &&& setup && usb.ep0_out_buffers is Some ==> usb.supports(packet(usb, snapshot))
            })
        }),
{
    lemma_dispatch(snapshot);
    if for_endpoint0(snapshot) && usb.ep0_out_descriptors is Some {
        law_setup_packet(snapshot.ep0_out_buffers@[packet_slot(usb, snapshot) as int]@);
        let received = usb.received(snapshot.ep0_pending().0, snapshot);
        assert(received == turned(usb, snapshot));
        assert(received.received_request(snapshot.ep0_out_buffers) == packet(usb, snapshot));
    }
}

// Phases.

/// While the driver waits for a SETUP packet, a setup phase that is done without a
/// packet is answered with a stall.
pub proof fn law_early_setup_stalled(usb: USB, bank: Bank, snapshot: Snapshot)
    requires
        usb.wf(),
        equipped(usb),
        for_endpoint0(snapshot),
        snapshot.interrupt_status & 0x1000 == 0,
        usb.state == USBState::WaitingForSetupPacket,
        snapshot.out0_interrupt & 0x01 == 0,
        snapshot.out0_interrupt & 0x08 != 0,
    ensures
        stalls(usb, bank, snapshot),
{
    lemma_ep0(usb, bank, snapshot);
    law_stalled(turned(usb, snapshot), noted(usb, bank, snapshot));
}

/// Past the first stage, when the setup phase of the packet decoded before is done,
/// both directions of endpoint 0 are enabled with their NAKs cleared, and the stage
/// stays.
pub proof fn law_setup_done(usb: USB, bank: Bank, snapshot: Snapshot)
    requires
        usb.wf(),
        equipped(usb),
        for_endpoint0(snapshot),
        snapshot.interrupt_status & 0x1000 == 0,
        usb.state != USBState::WaitingForSetupPacket,
        snapshot.device_all_ep_interrupt & 0x0001_0000 != 0,
        snapshot.out0_interrupt & 0x01 == 0,
        snapshot.out0_interrupt & 0x08 != 0,
    ensures
        ({
            let result = usb.interrupt_result(snapshot);
            &&& usb.accepts(snapshot)
            &&& result.0 == turned(usb, snapshot)
            &&& bank.run(result.1) == noted(usb, bank, snapshot).with_register(
                Register::InControl(0),
                0x8400_0000,
            ).with_register(Register::OutControl(0), 0x8400_0000).with_register(
                Register::InterruptStatus,
                snapshot.interrupt_status,
            )
        }),
{
    lemma_ep0(usb, bank, snapshot);
    lemma_values();
    reveal_with_fuel(Bank::run_first, 3);
}

/// Past the first stage, a complete packet that is no SETUP packet ends the transfer,
/// and so does, after an order, an OUT interrupt of the status phase or of none: the
/// driver waits for the next SETUP packet.
pub proof fn law_transfer_ends(usb: USB, bank: Bank, snapshot: Snapshot)
    requires
        usb.wf(),
        equipped(usb),
        for_endpoint0(snapshot),
        snapshot.interrupt_status & 0x1000 == 0,
        usb.state != USBState::WaitingForSetupPacket,
        snapshot.device_all_ep_interrupt & 0x0001_0000 != 0,
        ({
            ||| packet_complete(snapshot) && !holds_setup(usb, snapshot)
            ||| usb.state == USBState::NoDataStage && snapshot.out0_interrupt & 0x08 == 0 && (
            snapshot.out0_interrupt & 0x01 == 0 || snapshot.out0_interrupt & 0x20 != 0)
        }),
    ensures
        ({
            let result = usb.interrupt_result(snapshot);
            &&& usb.accepts(snapshot)
            &&& result.0 == (USB {
                state: USBState::WaitingForSetupPacket,
                ..turned(usb, snapshot)
            })
            &&& bank.run(result.1) == expecting(
                noted(usb, bank, snapshot),
                next_slot(usb, snapshot),
            ).with_register(Register::InterruptStatus, snapshot.interrupt_status)
        }),
{
    lemma_ep0(usb, bank, snapshot);
    law_setup_expected(turned(usb, snapshot), noted(usb, bank, snapshot));
}

/// Nothing but the bookkeeping is done about
///
/// - an interrupt without OUT, past the first stage;
/// - the status phase, or an OUT interrupt of no phase, before or during the data
///   stage.
pub proof fn law_phase_passed(usb: USB, bank: Bank, snapshot: Snapshot)
    requires
        usb.wf(),
        equipped(usb),
        for_endpoint0(snapshot),
        snapshot.interrupt_status & 0x1000 == 0,
        ({
            ||| usb.state != USBState::WaitingForSetupPacket && snapshot.device_all_ep_interrupt
                & 0x0001_0000 == 0
            ||| usb.state != USBState::NoDataStage && snapshot.out0_interrupt & 0x08 == 0 && (
            snapshot.out0_interrupt & 0x01 == 0 || snapshot.out0_interrupt & 0x20 != 0)
        }),
    ensures
        passes(usb, bank, snapshot),
{
    lemma_ep0(usb, bank, snapshot);
    let before = noted(usb, bank, snapshot);
    assert(before.run(seq![]) == before);
}

// Resets.

/// What a USB reset leaves: the descriptors of endpoint 0 belong to the processor,
/// each points to its 64 bytes, the hardware points to the first ones, and the first
/// OUT descriptor waits for a SETUP packet.
pub open spec fn cleaned(usb: USB, bank: Bank) -> Bank {
    let outs = usb.ep0_out_buffers->0;
    let ins = usb.ep0_in_buffers->0;
    bank.with_flags(DmaSlot::Ep0Out(0), 0xc000_0000).with_addr(DmaSlot::Ep0Out(0), outs).with_flags(
        DmaSlot::Ep0Out(1),
        0xc000_0000,
    ).with_addr(DmaSlot::Ep0Out(1), (outs + 64) as u32).with_register(
        Register::OutDmaAddress(0),
        usb.ep0_out_descriptors->0,
    ).with_flags(DmaSlot::Ep0In(0), 0xc000_0000).with_addr(DmaSlot::Ep0In(0), ins).with_flags(
        DmaSlot::Ep0In(1),
        0xc000_0000,
    ).with_addr(DmaSlot::Ep0In(1), (ins + 64) as u32).with_flags(
        DmaSlot::Ep0In(2),
        0xc000_0000,
    ).with_addr(DmaSlot::Ep0In(2), (ins + 128) as u32).with_flags(
        DmaSlot::Ep0In(3),
        0xc000_0000,
    ).with_addr(DmaSlot::Ep0In(3), (ins + 192) as u32).with_register(
        Register::InDmaAddress(0),
        usb.ep0_in_descriptors->0,
    )
}

/// A USB reset cleans the descriptors of endpoint 0 and waits for a SETUP packet in
/// the first of them. Nothing else changes, neither the address nor the chosen
/// configuration.
pub proof fn law_usb_reset(usb: USB, bank: Bank)
    requires
        usb.wf(),
        equipped(usb),
    ensures
        usb.after_reset() == (USB {
            state: USBState::WaitingForSetupPacket,
            next_ep0_out_idx: 0,
            ..usb
        }),
        bank.run(usb.reset_actions()) == expecting(cleaned(usb, bank), 0),
{
    broadcast use lemma_run_concat;

    law_descriptors_cleaned(usb, bank);
    law_setup_expected(usb.with_clean_ep0(), cleaned(usb, bank));
}

/// Cleaning the descriptors of endpoint 0 leaves what [`cleaned`] says, and changes
/// nothing else.
pub proof fn law_descriptors_cleaned(usb: USB, bank: Bank)
    requires
        usb.wf(),
        equipped(usb),
    ensures
        bank.run(usb.init_ep0_actions()) == cleaned(usb, bank),
{
    broadcast use lemma_run_concat;

    reveal_with_fuel(Bank::run_first, 9);
}

/// An interrupt with a USB reset (bit 12) does what it would do without that bit,
/// and then the reset, before it acknowledges.
pub proof fn law_reset_last(usb: USB, bank: Bank, snapshot: Snapshot)
    requires
        usb.wf(),
        equipped(usb),
        usb.accepts(snapshot),
        snapshot.interrupt_status & 0x1000 != 0,
    ensures
        ({
            let without = Snapshot {
                interrupt_status: snapshot.interrupt_status & !0x1000u32,
                ..snapshot
            };
            let before = usb.interrupt_result(without);
            let result = usb.interrupt_result(snapshot);
            &&& usb.accepts(without)
            &&& result.0 == (USB {
                state: USBState::WaitingForSetupPacket,
                next_ep0_out_idx: 0,
                ..before.0
            })
            &&& bank.run(result.1) == expecting(
                cleaned(usb, bank.run(before.1.drop_last())),
                0,
            ).with_register(Register::InterruptStatus, snapshot.interrupt_status)
        }),
{
    broadcast use lemma_run_concat;

    let status = snapshot.interrupt_status;
    let mask = snapshot.interrupt_mask;
    let without = Snapshot { interrupt_status: status & !0x1000u32, ..snapshot };
    assert((status & !0x1000u32) & 0x000c_0000 == status & 0x000c_0000 && (status & !0x1000u32)
        & 0x80 == status & 0x80 && (status & !0x1000u32) & 0x40 == status & 0x40 && mask & (status
        & !0x1000u32) & 0x8 == mask & status & 0x8 && (status & !0x1000u32) & 0x1000 == 0)
        by (bit_vector);
    lemma_dispatch(snapshot);
    lemma_dispatch(without);
    assert(snapshot.core_actions() == without.core_actions());
    assert(usb.accepts(without));
    assert(usb.endpoints_result(snapshot) == usb.endpoints_result(without));
    let endpoints = usb.endpoints_result(snapshot);
    law_interrupt_keeps(usb, without);
    let before = usb.interrupt_result(without);
    assert(before.0 == endpoints.0);
    assert(before.1.drop_last() =~= snapshot.core_actions() + endpoints.1);
    lemma_acknowledged(usb, bank, snapshot);
    law_usb_reset(endpoints.0, bank.run(snapshot.core_actions()).run(endpoints.1));
}

// Drivers without all of their memory.

/// A driver without OUT descriptors keeps their roles, and sets no flags of them.
pub proof fn law_without_out_descriptors(usb: USB, bank: Bank)
    requires
        usb.ep0_out_descriptors is None,
    ensures
        ({
            let mask = Register::DeviceAllEpInterruptMask;
            let listening = bank.with_register(
                mask,
                (bank.registers[mask] & !0x0000_0001u32) | 0x0001_0000,
            );
            &&& usb.swapped() == usb
            &&& bank.run(usb.swap_actions()) == bank
            &&& bank.run(usb.expect_setup_actions()) == listening.with_register(
                Register::OutControl(0),
                0x8400_0000,
            )
            &&& bank.run(usb.stall_actions()) == listening.with_register(
                Register::OutControl(0),
                0x8020_0000,
            ).with_register(Register::Reset, 0x20).with_register(
                Register::InControl(0),
                0x8020_0000,
            )
        }),
{
    broadcast use lemma_run_concat;

    lemma_values();
    reveal_with_fuel(Bank::run_first, 3);
}

/// A driver without OUT buffers does nothing about a SETUP packet.
pub proof fn law_without_out_buffers(usb: USB, case: TableCase, buffers: [[u32; 16]; 2])
    requires
        usb.ep0_out_buffers is None,
    ensures
        usb.setup_supported(buffers),
        usb.setup_result(case, buffers) == (usb, Seq::<Action>::empty()),
{
}

/// A driver without IN descriptors starts no phase; what it would reply is in its IN
/// buffer. One without an IN buffer replies with no bytes.
pub proof fn law_without_in_memory(
    usb: USB,
    bank: Bank,
    case: TableCase,
    data: Seq<u8>,
    len: int,
    limit: u16,
)
    requires
        bank.wf(),
        data.len() <= 256,
    ensures
        usb.ep0_in_descriptors is None ==> {
            &&& usb.data_phase_actions(case) == Seq::<Action>::empty()
            &&& usb.status_phase_actions(case) == Seq::<Action>::empty()
            &&& bank.run(usb.reply_actions(case, data, len, limit)) == (Bank {
                ep0_in: if usb.ep0_in_buffers is Some {
                    words_of(data) + bank.ep0_in.skip(words_of(data).len() as int)
                } else {
                    bank.ep0_in
                },
                ..bank
            })
        },
        usb.ep0_in_descriptors is Some && usb.ep0_in_buffers is None && usb.ep0_out_descriptors
            is Some ==> bank.run(usb.reply_actions(case, data, len, limit)) == sending(
            bank.with_flags(DmaSlot::Ep0In(0), 0x0e00_0000),
            usb.ep0_in_descriptors->0,
            usb.next_ep0_out_idx,
            case == TableCase::C,
        ),
{
    broadcast use lemma_run_concat;

    law_run_store_words(bank, Buffer::Ep0In, words_of(data));
    lemma_no_bytes();
    let stored = bank.run(store_words(Buffer::Ep0In, words_of(data)));
    assert(stored.run(seq![]) == stored);
    assert(bank.run(seq![]) == bank);
    if usb.ep0_in_descriptors is Some && usb.ep0_out_descriptors is Some {
        law_data_phase_started(usb, bank.with_flags(DmaSlot::Ep0In(0), 0x0e00_0000), case);
        reveal_with_fuel(Bank::run_first, 2);
    }
}

/// Only descriptors that have buffers are cleaned.
pub proof fn law_without_buffers(usb: USB)
    requires
        usb.ep0_out_descriptors is None || usb.ep0_out_buffers is None,
        usb.ep0_in_descriptors is None || usb.ep0_in_buffers is None,
    ensures
        usb.with_clean_ep0() == usb,
        usb.init_ep0_actions() == Seq::<Action>::empty(),
{
}

// The order of things.

/// What endpoint 0 IN has to send is in place before the endpoint is enabled for it:
/// after the last write of its control register nothing is stored in its buffer or in
/// its descriptors, and the hardware is not pointed elsewhere.
pub proof fn law_enabled_when_ready(usb: USB, case: TableCase, data: Seq<u8>, len: int, limit: u16)
    requires
        equipped(usb),
    ensures
        enabled_last(usb.reply_actions(case, data, len, limit)),
        enabled_last(usb.status_phase_actions(case)),
{
    let reply = usb.reply_actions(case, data, len, limit);
    let words = store_words(Buffer::Ep0In, words_of(data));
    assert(reply.len() == words.len() + 8);
    assert(forall|i: int| 0 <= i < words.len() ==> reply[i] == words[i]);
}

/// There is a write of endpoint 0's IN control register behind every action that has
/// to do with what the endpoint sends, and the OUT descriptor is handed over before
/// the OUT control register is written.
pub open spec fn enabled_last(actions: Seq<Action>) -> bool {
    &&& forall|i: int, k: int|
        0 <= i < k < actions.len() && (#[trigger] actions[i] matches Action::Write {
            register,
            ..
        } && register == Register::InControl(0)) ==> match #[trigger] actions[k] {
            Action::StoreWord { buffer, .. } => buffer != Buffer::Ep0In,
            Action::SetFlags { slot, .. } => slot is Ep0Out,
            Action::SetAddr { .. } => false,
            Action::Write { register, .. } => register == Register::OutControl(0),
            Action::WaitClear { .. } => false,
            _ => true,
        }
    &&& forall|i: int, k: int|
        0 <= i < k < actions.len() && (#[trigger] actions[i] matches Action::Write {
            register,
            ..
        } && register == Register::OutControl(0)) ==> !((#[trigger] actions[k]) is SetFlags)
}

} // verus!
