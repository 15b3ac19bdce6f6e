//! Bringing up the controller, register by register, and what the host then sees.

use vstd::prelude::*;

use crate::action::{Action, PeripheralClock, Register};
use crate::bank::{all_spare, law_run_concat, law_run_spares, spares, Bank};
use crate::descriptor::StringDescriptor;
use crate::endpoint0::{flush_rx_actions, flush_tx_actions};
use crate::handler::Snapshot;
use crate::init::{
    after_reset_actions, clear_all_actions, configure_actions, connect_actions,
    data_fifo_actions, full_configuration, generated, in_ep_fifo_actions, init_actions,
    initialized, overwritten, SoftReset,
};
use crate::laws::control::{
    brings_setup, law_configuration_descriptor_sent, law_device_descriptor_sent, packet, replies,
};
use crate::laws::values::lemma_start_values;
use crate::laws::wire::law_configuration_bytes;
use crate::laws::{law_init, lemma_run_concat};
use crate::usb::{USBState, PHY, USB};

verus! {

// The driver.

/// A new driver waits for a SETUP packet and appears as a bad device: vendor 0x0011,
/// product 0x7788. It has nothing to send or to receive with.
pub proof fn law_new_driver(usb: USB, flags: u32)
    requires
        usb.is_new(),
    ensures
        usb.state == USBState::WaitingForSetupPacket,
        usb.device_descriptor().wire() == seq![
            18u8,
            1,
            0x00,
            0x02,
            0,
            0,
            0,
            64,
            0x11,
            0x00,
            0x88,
            0x77,
            0x00,
            0x01,
            1,
            2,
            0,
            1,
        ],
        !usb.tx_ready(flags),
        !usb.rx_ready(flags),
        !usb.u2f_client,
        usb.total_length() == 0,
        usb.configuration_current_value == 0,
        usb.configuration_descriptor is None,
{
    assert(usb.device_descriptor().wire() =~= seq![
        18u8,
        1,
        0x00,
        0x02,
        0,
        0,
        0,
        64,
        0x11,
        0x00,
        0x88,
        0x77,
        0x00,
        0x01,
        1,
        2,
        0,
        1,
    ]);
}

/// Setting the total length changes what getting it gives, and nothing else of the
/// driver.
pub proof fn law_total_length(usb: USB, length: u16)
    ensures
        usb.with_total_length(length).total_length() == length,
        usb.with_total_length(length).with_total_length(usb.total_length()) == usb,
{
}

/// From the time on that it is set, there is a client, and nothing else changes.
pub proof fn law_client_set(usb: USB)
    ensures
        usb.with_client().u2f_client,
        usb.with_client() == (USB { u2f_client: usb.with_client().u2f_client, ..usb }),
{
}

/// What is written over a buffer is in it from its place on; the rest of the buffer
/// stays.
pub proof fn law_overwritten(buffer: Seq<u8>, at: int, bytes: Seq<u8>, i: int)
    requires
        0 <= at,
        at + bytes.len() <= buffer.len(),
        0 <= i < buffer.len(),
    ensures
        overwritten(buffer, at, bytes).len() == buffer.len(),
        overwritten(buffer, at, bytes)[i] == (if at <= i < at + bytes.len() {
            bytes[i - at]
        } else {
            buffer[i]
        }),
{
}

/// Generating the configuration descriptor puts its 41 bytes at the start of the
/// buffer, keeps the rest of the buffer, and has 41 bytes count. It changes nothing
/// else, and nothing at all without a buffer.
pub proof fn law_generated(before: USB, after: USB, i: int)
    requires
        generated(before, after),
        0 <= i < 64,
    ensures
        before.configuration_descriptor is None ==> after == before,
        before.configuration_descriptor matches Some(buffer) ==> {
            &&& after.configuration_descriptor is Some
            &&& (after.configuration_descriptor->0)@[i] == (if i < 41 {
                full_configuration()[i]
            } else {
                buffer@[i]
            })
            &&& after.total_length() == 41
            &&& after == (USB {
                configuration_descriptor: after.configuration_descriptor,
                configuration_total_length: after.configuration_total_length,
                ..before
            })
        },
{
    law_configuration_bytes();
}

/// `init` gives the driver the memory and the strings that it is called with, and the
/// class and ids that are not left out. The others it had before, and so it has its
/// stage, the chosen configuration and its client.
pub proof fn law_initialized(
    before: USB,
    after: USB,
    ep0_out_descriptors: u32,
    ep0_out_buffers: u32,
    ep0_in_descriptors: u32,
    ep0_in_buffers: u32,
    ep1_out_descriptor: u32,
    ep1_out_buffer: u32,
    ep1_in_descriptor: u32,
    ep1_in_buffer: u32,
    configuration_buffer: [u8; 64],
    device_class: Option<u8>,
    vendor_id: Option<u16>,
    product_id: Option<u16>,
    strings: Vec<StringDescriptor>,
)
    requires
        initialized(
            before,
            after,
            ep0_out_descriptors,
            ep0_out_buffers,
            ep0_in_descriptors,
            ep0_in_buffers,
            ep1_out_descriptor,
            ep1_out_buffer,
            ep1_in_descriptor,
            ep1_in_buffer,
            configuration_buffer,
            device_class,
            vendor_id,
            product_id,
            strings,
        ),
    ensures
        after.ep0_out_descriptors == Some(ep0_out_descriptors),
        after.ep0_out_buffers == Some(ep0_out_buffers),
        after.ep0_in_descriptors == Some(ep0_in_descriptors),
        after.ep0_in_buffers == Some(ep0_in_buffers),
        after.ep1_out_descriptor == Some(ep1_out_descriptor),
        after.ep1_out_buffer == Some(ep1_out_buffer),
        after.ep1_in_descriptor == Some(ep1_in_descriptor),
        after.ep1_in_buffer == Some(ep1_in_buffer),
        device_class matches Some(class) ==> after.device_class == class,
        device_class is None ==> after.device_class == before.device_class,
        vendor_id matches Some(vid) ==> after.vendor_id == vid,
        vendor_id is None ==> after.vendor_id == before.vendor_id,
        product_id matches Some(pid) ==> after.product_id == pid,
        product_id is None ==> after.product_id == before.product_id,
        after.strings == Some(strings),
        after.configuration_descriptor is Some,
        (after.configuration_descriptor->0)@.take(41) == full_configuration(),
        (after.configuration_descriptor->0)@.skip(41) == configuration_buffer@.skip(41),
        after.total_length() == 41,
        after.state == before.state,
        after.next_ep0_out_idx == before.next_ep0_out_idx,
        after.last_ep0_out_idx == before.last_ep0_out_idx,
        after.configuration_current_value == before.configuration_current_value,
        after.u2f_client == before.u2f_client,
{
    law_configuration_bytes();
    assert((after.configuration_descriptor->0)@.take(41) =~= full_configuration());
    assert((after.configuration_descriptor->0)@.skip(41) =~= configuration_buffer@.skip(41));
}

/// The class and the ids that `init` is called with are what a host is told that asks
/// for the device descriptor, and a host that asks for the configuration descriptor
/// is sent the 41 bytes of the full one.
pub proof fn law_host_sees_parameters(
    before: USB,
    usb: USB,
    ep0_out_descriptors: u32,
    ep0_out_buffers: u32,
    ep0_in_descriptors: u32,
    ep0_in_buffers: u32,
    ep1_out_descriptor: u32,
    ep1_out_buffer: u32,
    ep1_in_descriptor: u32,
    ep1_in_buffer: u32,
    configuration_buffer: [u8; 64],
    class: u8,
    vid: u16,
    pid: u16,
    strings: Vec<StringDescriptor>,
    bank: Bank,
    snapshot: Snapshot,
)
    requires
        usb.wf(),
        initialized(
            before,
            usb,
            ep0_out_descriptors,
            ep0_out_buffers,
            ep0_in_descriptors,
            ep0_in_buffers,
            ep1_out_descriptor,
            ep1_out_buffer,
            ep1_in_descriptor,
            ep1_in_buffer,
            configuration_buffer,
            Some(class),
            Some(vid),
            Some(pid),
            strings,
        ),
        bank.wf(),
        brings_setup(usb, snapshot),
        packet(usb, snapshot).bm_request_type == 0x80,
        packet(usb, snapshot).b_request == 6,
    ensures
        packet(usb, snapshot).w_value / 0x100 == 1 ==> replies(
            usb,
            bank,
            snapshot,
            seq![
                18u8,
                1,
                0x00,
                0x02,
                class,
                0,
                0,
                64,
                (vid & 0xff) as u8,
                (vid >> 8) as u8,
                (pid & 0xff) as u8,
                (pid >> 8) as u8,
                0x00,
                0x01,
                1,
                2,
                0,
                1,
            ],
            18,
        ),
        packet(usb, snapshot).w_value / 0x100 == 2 ==> {
            let configuration = (usb.configuration_descriptor->0)@;
            &&& replies(usb, bank, snapshot, configuration, 41)
            &&& configuration.take(41) == full_configuration()
        },
{
    law_initialized(
        before,
        usb,
        ep0_out_descriptors,
        ep0_out_buffers,
        ep0_in_descriptors,
        ep0_in_buffers,
        ep1_out_descriptor,
        ep1_out_buffer,
        ep1_in_descriptor,
        ep1_in_buffer,
        configuration_buffer,
        Some(class),
        Some(vid),
        Some(pid),
        strings,
    );
    if packet(usb, snapshot).w_value / 0x100 == 1 {
        law_device_descriptor_sent(usb, bank, snapshot);
    } else if packet(usb, snapshot).w_value / 0x100 == 2 {
        law_configuration_descriptor_sent(usb, bank, snapshot);
    }
}

// The wait for a soft reset.

/// The wait goes on while bit 0 of the reset register is read as set, for 10000
/// reads; the next such read ends it.
pub proof fn law_soft_reset_waits_for_core(reads: Seq<u32>)
    requires
        reads.len() <= 10001,
        forall|i: int| 0 <= i < reads.len() ==> (#[trigger] reads[i]) & 0x1 == 1,
    ensures
        SoftReset::start().after_all(reads) == (if reads.len() <= 10000 {
            SoftReset::Resetting((10000 - reads.len()) as u32)
        } else {
            SoftReset::Done
        }),
    decreases reads.len(),
{
    if reads.len() > 0 {
        let rest = reads.drop_last();
        assert forall|i: int| 0 <= i < rest.len() implies (#[trigger] rest[i]) & 0x1 == 1 by {
            assert(rest[i] == reads[i]);
        }
        law_soft_reset_waits_for_core(rest);
        assert(reads[reads.len() - 1] & 0x1 == 1);
    }
}

/// As soon as bit 0 is read as clear, the wait for bit 31 begins, with 10000 reads of
/// its own; that ends with the first read that shows bit 31, or with the first one
/// after those.
pub proof fn law_soft_reset_steps(timeout: u32, reset: u32)
    ensures
        reset & 0x1 == 0 ==> SoftReset::Resetting(timeout).after(reset) == SoftReset::Idling(10000),
        reset & 0x1 == 1 && timeout > 0 ==> SoftReset::Resetting(timeout).after(reset)
            == SoftReset::Resetting((timeout - 1) as u32),
        reset & 0x1 == 1 && timeout == 0 ==> SoftReset::Resetting(timeout).after(reset)
            == SoftReset::Done,
        reset >= 0x8000_0000 || timeout == 0 ==> SoftReset::Idling(timeout).after(reset)
            == SoftReset::Done,
        reset < 0x8000_0000 && timeout > 0 ==> SoftReset::Idling(timeout).after(reset)
            == SoftReset::Idling((timeout - 1) as u32),
        SoftReset::Done.after(reset) == SoftReset::Done,
{
    assert((reset & 0x8000_0000 == 0) == (reset < 0x8000_0000)) by (bit_vector);
}

// The FIFOs.

/// A flush writes bit 5 of the reset register, with the number of the FIFO in bits
/// 10:6, or 16 for all, and waits for bit 5 to clear; a flush of the receive FIFO
/// writes bit 4 and waits for that.
pub proof fn law_flush(fifo_num: u8)
    ensures
        ({
            let selected = if fifo_num < 16 {
                fifo_num as u32
            } else {
                16u32
            };
            &&& flush_tx_actions(fifo_num) == seq![
                Action::Write { register: Register::Reset, value: 0x20 | (selected << 6) },
                Action::WaitClear { register: Register::Reset, mask: 0x20 },
            ]
            &&& flush_rx_actions() == seq![
                Action::Write { register: Register::Reset, value: 0x10 },
                Action::WaitClear { register: Register::Reset, mask: 0x10 },
            ]
        }),
{
    let selected = if fifo_num < 16 {
        fifo_num as u32
    } else {
        16u32
    };
    assert(0x20u32 | (selected << 6) == 0x20 + 0x40 * selected) by (bit_vector)
        requires
            selected <= 16,
    ;
    assert(flush_tx_actions(fifo_num) =~= seq![
        Action::Write { register: Register::Reset, value: 0x20 | (selected << 6) },
        Action::WaitClear { register: Register::Reset, mask: 0x20 },
    ]);
    assert(flush_rx_actions() =~= seq![
        Action::Write { register: Register::Reset, value: 0x10 },
        Action::WaitClear { register: Register::Reset, mask: 0x10 },
    ]);
}

/// A register keeps what it was last written.
proof fn lemma_last_write(bank: Bank, actions: Seq<Action>, k: int, register: Register, value: u32)
    requires
        0 <= k < actions.len(),
        actions[k] == (Action::Write { register, value }),
        forall|i: int| k < i < actions.len() ==> spares(#[trigger] actions[i], register),
    ensures
        bank.run(actions).registers[register] == value,
{
    let first = actions.take(k + 1);
    let rest = actions.skip(k + 1);
    assert(actions =~= first + rest);
    law_run_concat(bank, first, rest);
    assert(bank.run(first) == bank.run_first(first, k).after(first[k]));
    assert(all_spare(rest, register)) by {
        assert forall|i: int| 0 <= i < rest.len() implies spares(#[trigger] rest[i], register) by {
            assert(rest[i] == actions[k + 1 + i]);
        }
    }
    law_run_spares(bank.run(first), rest, register);
}

/// The receive FIFO has 512 words, and each transmit FIFO 32. The first of those
/// starts behind the receive FIFO, and each starts where the one before it ends. At
/// the end all of them are flushed, and then the receive FIFO.
pub proof fn law_fifos(bank: Bank)
    ensures
        ({
            let after = bank.run(data_fifo_actions()).registers;
            let actions = data_fifo_actions();
            &&& after[Register::ReceiveFifoSize] == 512
            &&& after[Register::TransmitFifoSize] == 0x0020_0200
            &&& after[Register::DeviceInEpTxFifoSize(0)] == 0x0020_0200
            &&& forall|i: usize|
                i < 15 ==> #[trigger] after[Register::DeviceInEpTxFifoSize(i)] == 0x0020_0000 + 512
                    + 32 * i
            &&& actions.skip(actions.len() - 4) == seq![
                Action::Write { register: Register::Reset, value: 0x420 },
                Action::WaitClear { register: Register::Reset, mask: 0x20 },
                Action::Write { register: Register::Reset, value: 0x10 },
                Action::WaitClear { register: Register::Reset, mask: 0x10 },
            ]
        }),
{
    let actions = data_fifo_actions();
    let fifos = in_ep_fifo_actions();
    lemma_last_write(bank, actions, 0, Register::ReceiveFifoSize, 512);
    lemma_last_write(bank, actions, 1, Register::TransmitFifoSize, 0x0020_0200);
    assert forall|i: usize| i < 15 implies #[trigger] bank.run(
        actions,
    ).registers[Register::DeviceInEpTxFifoSize(i)] == 0x0020_0000 + 512 + 32 * i by {
        assert(actions[2 + i] == fifos[i as int]);
        lemma_last_write(
            bank,
            actions,
            2 + i,
            Register::DeviceInEpTxFifoSize(i),
            (0x0020_0000 + 512 + 32 * i) as u32,
        );
    }
    assert(actions.skip(actions.len() - 4) =~= seq![
        Action::Write { register: Register::Reset, value: 0x420 },
        Action::WaitClear { register: Register::Reset, mask: 0x20 },
        Action::Write { register: Register::Reset, value: 0x10 },
        Action::WaitClear { register: Register::Reset, mask: 0x10 },
    ]);
}

// The order of things.

/// Up to the soft reset, `init` starts both clocks, masks every interrupt, selects
/// the PHY and configures the core; then it resets the core and waits for that.
pub proof fn law_core_started(phy: PHY)
    ensures
        init_actions(phy).take(10) == seq![
            Action::EnableClock { clock: PeripheralClock::Usb0 },
            Action::EnableClock { clock: PeripheralClock::Usb0TimerHs },
            Action::Write { register: Register::InterruptMask, value: 0 },
            Action::Write { register: Register::DeviceAllEpInterruptMask, value: 0 },
            Action::Write { register: Register::DeviceInEpInterruptMask, value: 0 },
            Action::Write { register: Register::DeviceOutEpInterruptMask, value: 0 },
            Action::Write {
                register: Register::Gpio,
                value: if phy == PHY::A {
                    0x8040_0000
                } else {
                    0x8050_0000
                },
            },
            Action::Write { register: Register::Configuration, value: 0x3847 },
            Action::Write { register: Register::Reset, value: 0x1 },
            Action::WaitSoftReset,
        ],
{
    assert(init_actions(phy).take(10) =~= seq![
        Action::EnableClock { clock: PeripheralClock::Usb0 },
        Action::EnableClock { clock: PeripheralClock::Usb0TimerHs },
        Action::Write { register: Register::InterruptMask, value: 0 },
        Action::Write { register: Register::DeviceAllEpInterruptMask, value: 0 },
        Action::Write { register: Register::DeviceInEpInterruptMask, value: 0 },
        Action::Write { register: Register::DeviceOutEpInterruptMask, value: 0 },
        Action::Write {
            register: Register::Gpio,
            value: if phy == PHY::A {
                0x8040_0000
            } else {
                0x8050_0000
            },
        },
        Action::Write { register: Register::Configuration, value: 0x3847 },
        Action::Write { register: Register::Reset, value: 0x1 },
        Action::WaitSoftReset,
    ]);
}

/// What `init` leaves after the soft reset, from whatever that left: the core is
/// configured again and does DMA with its interrupts on, the FIFOs have their
/// sizes, every pending interrupt is cleared, the interrupts that the driver handles
/// are unmasked, and the device is a connected full speed device in scatter/gather
/// mode, without global NAKs.
pub proof fn law_controller_up(bank: Bank, phy: PHY)
    ensures
        ({
            let old = bank.registers;
            let new = bank.run(init_actions(phy).skip(10)).registers;
            &&& new[Register::Configuration] == 0x3847
            &&& new[Register::AhbConfig] == 0xa1
            &&& new[Register::DeviceControl] == (old[Register::DeviceControl] & !0x802u32) | 0x500
            &&& new[Register::DeviceConfig] == old[Register::DeviceConfig] | 0x0080_0003
            &&& new[Register::ReceiveFifoSize] == 512
            &&& new[Register::TransmitFifoSize] == 0x0020_0200
            &&& forall|i: usize|
                i < 15 ==> #[trigger] new[Register::DeviceInEpTxFifoSize(i)] == 0x0020_0000 + 512
                    + 32 * i
            &&& forall|i: usize|
                i < 16 ==> #[trigger] new[Register::OutInterrupt(i)] == 0xffff_ffff
            &&& forall|i: usize|
                i < 16 ==> #[trigger] new[Register::InInterrupt(i)] == 0xffff_ffff
            &&& new[Register::InterruptStatus] == 0xffff_ffff
            &&& new[Register::DeviceOutEpInterruptMask] == 0xb
            &&& new[Register::DeviceInEpInterruptMask] == 0x3
            &&& new[Register::InterruptMask] == 0x000c_3cc8
            &&& new[Register::DeviceAllEpInterruptMask] == old[Register::DeviceAllEpInterruptMask]
            &&& new[Register::Gpio] == old[Register::Gpio]
        }),
{
    broadcast use lemma_run_concat;

    let actions = after_reset_actions();
    assert(init_actions(phy).skip(10) =~= actions);
    law_init(bank, phy);
    lemma_start_values();
    lemma_parts(bank);
    let config = bank.registers[Register::DeviceConfig];
    let new_config = bank.run(actions).registers[Register::DeviceConfig];
    assert(new_config == config | 0x0080_0003) by (bit_vector)
        requires
            new_config & 0x0080_0003 == 0x0080_0003,
            new_config & !0x0080_0003u32 == config & !0x0080_0003u32,
    ;
}

proof fn lemma_parts(bank: Bank)
    ensures
        ({
            let new = bank.run(after_reset_actions()).registers;
            &&& new[Register::Configuration] == 0x3847
            &&& new[Register::AhbConfig] == 0xa1
            &&& new[Register::ReceiveFifoSize] == 512
            &&& new[Register::TransmitFifoSize] == 0x0020_0200
            &&& forall|i: usize|
                i < 15 ==> #[trigger] new[Register::DeviceInEpTxFifoSize(i)] == 0x0020_0000 + 512
                    + 32 * i
            &&& forall|i: usize|
                i < 16 ==> #[trigger] new[Register::OutInterrupt(i)] == 0xffff_ffff
            &&& forall|i: usize|
                i < 16 ==> #[trigger] new[Register::InInterrupt(i)] == 0xffff_ffff
            &&& new[Register::InterruptStatus] == 0xffff_ffff
            &&& new[Register::DeviceOutEpInterruptMask] == 0xb
            &&& new[Register::DeviceInEpInterruptMask] == 0x3
            &&& new[Register::Gpio] == bank.registers[Register::Gpio]
        }),
{
    lemma_start_values();
    let actions = after_reset_actions();
    let fifos = in_ep_fifo_actions();
    let clears = clear_all_actions();
    let n = configure_actions().len() as int;
    assert(n == 3 + 2 + 15 + 4);
    assert(clears.len() == 33);
    lemma_last_write(bank, actions, 0, Register::Configuration, 0x3847);
    lemma_last_write(bank, actions, 1, Register::AhbConfig, 0xa1);
    lemma_last_write(bank, actions, 4, Register::ReceiveFifoSize, 512);
    lemma_last_write(bank, actions, 5, Register::TransmitFifoSize, 0x0020_0200);
    assert forall|i: usize| i < 15 implies #[trigger] bank.run(
        actions,
    ).registers[Register::DeviceInEpTxFifoSize(i)] == 0x0020_0000 + 512 + 32 * i by {
        assert(actions[6 + i] == fifos[i as int]);
        lemma_last_write(
            bank,
            actions,
            6 + i,
            Register::DeviceInEpTxFifoSize(i),
            (0x0020_0000 + 512 + 32 * i) as u32,
        );
    }
    assert forall|i: usize| i < 16 implies #[trigger] bank.run(
        actions,
    ).registers[Register::OutInterrupt(i)] == 0xffff_ffff by {
        assert(actions[1 + n + i] == clears[i as int]);
        lemma_last_write(bank, actions, 1 + n + i, Register::OutInterrupt(i), 0xffff_ffff);
    }
    assert forall|i: usize| i < 16 implies #[trigger] bank.run(
        actions,
    ).registers[Register::InInterrupt(i)] == 0xffff_ffff by {
        assert(actions[17 + n + i] == clears[16 + i]);
        lemma_last_write(bank, actions, 17 + n + i, Register::InInterrupt(i), 0xffff_ffff);
    }
    assert(actions[33 + n] == clears[32]);
    lemma_last_write(bank, actions, 33 + n, Register::InterruptStatus, 0xffff_ffff);
    assert(actions[34 + n] == connect_actions()[0]);
    lemma_last_write(bank, actions, 34 + n, Register::DeviceOutEpInterruptMask, 0xb);
    assert(actions[35 + n] == connect_actions()[1]);
    lemma_last_write(bank, actions, 35 + n, Register::DeviceInEpInterruptMask, 0x3);
    law_run_spares(bank, actions, Register::Gpio);
}

/// The device is connected last, after the interrupts were unmasked, power-on
/// programming was reported as done for 10000 instructions, and the global NAKs were
/// cleared. It was disconnected before it was configured.
pub proof fn law_connected_last(phy: PHY)
    ensures
        ({
            let actions = init_actions(phy);
            let control = Register::DeviceControl;
            &&& actions[12] == (Action::Modify { register: control, clear: 0, set: 0x2 })
            &&& actions.skip(actions.len() - 6) == seq![
                Action::Write { register: Register::InterruptMask, value: 0x000c_3cc8 },
                Action::Modify { register: control, clear: 0, set: 0x800 },
                Action::Delay { nops: 10000 },
                Action::Modify { register: control, clear: 0x800, set: 0 },
                Action::Modify { register: control, clear: 0, set: 0x500 },
                Action::Modify { register: control, clear: 0x2, set: 0 },
            ]
        }),
{
    lemma_start_values();
    let actions = init_actions(phy);
    let control = Register::DeviceControl;
    assert(actions[12] == configure_actions()[1]);
    assert(actions.skip(actions.len() - 6) =~= seq![
        Action::Write { register: Register::InterruptMask, value: 0x000c_3cc8 },
        Action::Modify { register: control, clear: 0, set: 0x800 },
        Action::Delay { nops: 10000 },
        Action::Modify { register: control, clear: 0x800, set: 0 },
        Action::Modify { register: control, clear: 0, set: 0x500 },
        Action::Modify { register: control, clear: 0x2, set: 0 },
    ]);
}

} // verus!
