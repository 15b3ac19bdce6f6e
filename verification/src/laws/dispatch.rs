//! Which interrupts are handled, by the bits of the interrupt registers.

use vstd::prelude::*;

use crate::action::{Action, Register};
use crate::bank::Bank;
use crate::handler::Snapshot;
use crate::interrupt::{any_set, InInterrupt, Interrupt, TableCase};
use crate::laws::interrupts::{
    after_clearing, flushes_awaited, law_callbacks, lemma_after_clearing, lemma_ep0_plain,
    lemma_flushes_concat, lemma_inner_at, lemma_inner_plain, lemma_inner_run, lemma_reset_inner,
    lemma_surroundings_plain, plain,
};
use crate::laws::lemma_run_concat;
use crate::laws::values::{lemma_modified, lemma_values};
use crate::usb::USB;

verus! {

/// The case of an OUT endpoint interrupt is a matter of bits 0 (transfer complete),
/// 3 (setup) and, where the transfer is complete without setup, 5 (status phase
/// received), whatever the other bits are.
pub proof fn law_case_bits(value: u32)
    ensures
        ({
            let complete = value & 0x01 != 0;
            let setup = value & 0x08 != 0;
            let status = value & 0x20 != 0;
            let case = TableCase::of(value);
            &&& (case == TableCase::A) == (complete && !setup && !status)
            &&& (case == TableCase::B) == (!complete && setup)
            &&& (case == TableCase::C) == (complete && setup)
            &&& (case == TableCase::D) == (!complete && !setup)
            &&& (case == TableCase::E) == (complete && !setup && status)
        }),
{
}

pub(crate) proof fn lemma_dispatch(snapshot: Snapshot)
    ensures
        ({
            let status = snapshot.interrupt_status;
            let pending = snapshot.device_all_ep_interrupt;
            &&& snapshot.ep0_pending() == (pending & 0x0001_0000 != 0, pending & 0x0000_0001 != 0)
            &&& snapshot.ep1_pending() == (pending & 0x0002_0000 != 0, pending & 0x0000_0002 != 0)
            &&& (pending & 0x0001_0001 != 0) == (pending & 0x0001_0000 != 0 || pending
                & 0x0000_0001 != 0)
            &&& snapshot.for_ep0() == (status & 0x000c_0000 != 0 && pending & 0x0001_0001 != 0)
            &&& snapshot.for_ep1() == (status & 0x000c_0000 != 0 && pending & 0x0001_0001 == 0 && (
            pending & 0x0002_0000 != 0 || pending & 0x0000_0002 != 0))
        }),
{
    lemma_values();
    let pending = snapshot.device_all_ep_interrupt;
    assert((pending & 0x0001_0001 != 0) == (pending & 0x0001_0000 != 0 || pending & 0x0000_0001
        != 0)) by (bit_vector);
}

/// What an interrupt leaves in the registers that tell and mask interrupts, by the
/// bits of its status and of the endpoints' status, all other bits being what they
/// may:
///
/// - The status is written back as it was read.
/// - An unmasked start of frame (bit 3) is masked; a global OUT NAK (bit 7) is
///   cleared by bit 10 of device control, a global IN NAK (bit 6) by bit 8.
/// - With an endpoint interrupt of either direction (bit 18 or 19), the interrupts of
///   endpoint 0 that are pending, OUT in bit 16 and IN in bit 0, are cleared as they
///   were read; and those of endpoint 1, OUT in bit 17 and IN in bit 1, if endpoint 0
///   has none.
/// - Nothing else of this is touched, nor anything that only bringing up the
///   controller sets.
pub proof fn law_interrupt_registers(usb: USB, bank: Bank, snapshot: Snapshot)
    ensures
        ({
            let status = snapshot.interrupt_status;
            let pending = snapshot.device_all_ep_interrupt;
            let old = bank.registers;
            let new = bank.run(usb.interrupt_result(snapshot).1).registers;
            let endpoints = status & 0x000c_0000 != 0;
            let mask = Register::InterruptMask;
            let control = old[Register::DeviceControl];
            let out_nak = if status & 0x80 != 0 { control | 0x400 } else { control };
            let in_nak = if status & 0x40 != 0 { out_nak | 0x100 } else { out_nak };
            &&& new[Register::InterruptStatus] == status
            &&& new[mask] == (if snapshot.interrupt_mask & status & 0x8 != 0 {
                old[mask] & !0x8u32
            } else {
                old[mask]
            })
            &&& new[Register::DeviceControl] == in_nak
            &&& new[Register::OutInterrupt(0)] == (if endpoints && pending & 0x0001_0000 != 0 {
                snapshot.out0_interrupt
            } else {
                old[Register::OutInterrupt(0)]
            })
            &&& new[Register::InInterrupt(0)] == (if endpoints && pending & 0x0000_0001 != 0 {
                snapshot.in0_interrupt
            } else {
                old[Register::InInterrupt(0)]
            })
            &&& new[Register::OutInterrupt(1)] == (if endpoints && pending & 0x0001_0001 == 0
                && pending & 0x0002_0000 != 0 {
                snapshot.out1_interrupt
            } else {
                old[Register::OutInterrupt(1)]
            })
            &&& new[Register::InInterrupt(1)] == (if endpoints && pending & 0x0001_0001 == 0
                && pending & 0x0000_0002 != 0 {
                snapshot.in1_interrupt
            } else {
                old[Register::InInterrupt(1)]
            })
            &&& forall|i: usize|
                i >= 2 ==> #[trigger] new[Register::OutInterrupt(i)] == old[Register::OutInterrupt(
                    i,
                )]
            &&& forall|i: usize|
                i >= 2 ==> #[trigger] new[Register::InInterrupt(i)] == old[Register::InInterrupt(i)]
            &&& new[Register::Gpio] == old[Register::Gpio]
            &&& new[Register::Configuration] == old[Register::Configuration]
            &&& new[Register::AhbConfig] == old[Register::AhbConfig]
            &&& new[Register::ReceiveFifoSize] == old[Register::ReceiveFifoSize]
            &&& new[Register::TransmitFifoSize] == old[Register::TransmitFifoSize]
            &&& new[Register::DeviceInEpInterruptMask] == old[Register::DeviceInEpInterruptMask]
            &&& new[Register::DeviceOutEpInterruptMask] == old[Register::DeviceOutEpInterruptMask]
            &&& forall|i: usize| #[trigger]
                new[Register::DeviceInEpTxFifoSize(i)] == old[Register::DeviceInEpTxFifoSize(i)]
        }),
{
    broadcast use lemma_run_concat;

    lemma_dispatch(snapshot);
    let cored = bank.run(snapshot.core_actions());
    lemma_core(bank, snapshot);
    let endpoints = usb.endpoints_result(snapshot);
    let done = cored.run(endpoints.1);
    if snapshot.for_ep0() {
        let pending = snapshot.ep0_pending();
        let clear = snapshot.ep0_clear_actions(pending.0, pending.1);
        let rest = after_clearing(usb, pending.0, pending.1, snapshot);
        lemma_after_clearing(usb, pending.0, pending.1, snapshot);
        lemma_inner_run(cored.run(clear), rest);
        lemma_ep0_cleared(cored, pending.0, pending.1, snapshot);
        assert(done == cored.run(clear).run(rest));
    } else if snapshot.for_ep1() {
        let pending = snapshot.ep1_pending();
        lemma_ep1_cleared(usb, cored, pending.0, pending.1, snapshot);
    } else {
        assert(done == cored);
    }
    let reset = usb.reset_part(snapshot);
    lemma_reset_inner(endpoints.0);
    lemma_inner_run(done, reset);
    lemma_acknowledged(usb, bank, snapshot);
}

/// An interrupt ends with the write of its status.
pub(crate) proof fn lemma_acknowledged(usb: USB, bank: Bank, snapshot: Snapshot)
    ensures
        bank.run(usb.interrupt_result(snapshot).1) == bank.run(snapshot.core_actions()).run(
            usb.endpoints_result(snapshot).1,
        ).run(usb.reset_part(snapshot)).with_register(
            Register::InterruptStatus,
            snapshot.interrupt_status,
        ),
{
    broadcast use lemma_run_concat;

    let last = seq![
        Action::Write { register: Register::InterruptStatus, value: snapshot.interrupt_status },
    ];
    assert(usb.interrupt_result(snapshot).1 == snapshot.core_actions() + usb.endpoints_result(
        snapshot,
    ).1 + usb.reset_part(snapshot) + last);
    reveal_with_fuel(Bank::run_first, 2);
}

pub(crate) proof fn lemma_ep0_cleared(
    bank: Bank,
    out_interrupt: bool,
    in_interrupt: bool,
    snapshot: Snapshot,
)
    ensures
        ({
            let out = if out_interrupt {
                bank.with_register(Register::OutInterrupt(0), snapshot.out0_interrupt)
            } else {
                bank
            };
            bank.run(snapshot.ep0_clear_actions(out_interrupt, in_interrupt)) == (
            if in_interrupt {
                out.with_register(Register::InInterrupt(0), snapshot.in0_interrupt)
            } else {
                out
            })
        }),
{
    broadcast use lemma_run_concat;

    reveal_with_fuel(Bank::run_first, 2);
}

pub(crate) proof fn lemma_ep1_cleared(
    usb: USB,
    bank: Bank,
    out_interrupt: bool,
    in_interrupt: bool,
    snapshot: Snapshot,
)
    ensures
        ({
            let sent = if in_interrupt {
                bank.with_register(Register::InInterrupt(1), snapshot.in1_interrupt)
            } else {
                bank
            };
            bank.run(
                usb.ep1_actions(
                    out_interrupt,
                    in_interrupt,
                    snapshot.out1_interrupt,
                    snapshot.in1_interrupt,
                ),
            ) == (if out_interrupt {
                sent.with_register(Register::OutInterrupt(1), snapshot.out1_interrupt)
            } else {
                sent
            })
        }),
{
    broadcast use lemma_run_concat;

    reveal_with_fuel(Bank::run_first, 2);
}

/// What the core interrupts leave.
pub(crate) proof fn lemma_core(bank: Bank, snapshot: Snapshot)
    ensures
        bank.run(snapshot.core_actions()) == after_core(bank, snapshot),
{
    broadcast use lemma_run_concat;

    let control = bank.registers[Register::DeviceControl];
    lemma_modified(bank.registers[Register::InterruptMask], 0x8, 0);
    lemma_modified(control, 0, 0x400);
    lemma_modified(control, 0, 0x100);
    lemma_modified(control | 0x400, 0, 0x100);
    reveal_with_fuel(Bank::run_first, 2);
}

/// The bank after an interrupt's bits of the core were seen to: an unmasked start of
/// frame is masked, and the global NAKs are cleared.
pub open spec fn after_core(bank: Bank, snapshot: Snapshot) -> Bank {
    let status = snapshot.interrupt_status;
    let mask = Register::InterruptMask;
    let control = Register::DeviceControl;
    let masked = if snapshot.interrupt_mask & status & 0x8 != 0 {
        bank.with_register(mask, bank.registers[mask] & !0x8u32)
    } else {
        bank
    };
    let out_nak = if status & 0x80 != 0 {
        masked.with_register(control, masked.registers[control] | 0x400)
    } else {
        masked
    };
    if status & 0x40 != 0 {
        out_nak.with_register(control, out_nak.registers[control] | 0x100)
    } else {
        out_nak
    }
}

/// An interrupt that is not for endpoint 0 and shows no USB reset is accepted, changes
/// nothing of the driver, and leaves every register and all of the memory alone but
/// for the core's bits, the interrupts of endpoint 1 that it clears, and the status.
pub proof fn law_not_for_endpoint0(usb: USB, bank: Bank, snapshot: Snapshot)
    requires
        snapshot.interrupt_status & 0x000c_0000 == 0 || snapshot.device_all_ep_interrupt
            & 0x0001_0001 == 0,
        snapshot.interrupt_status & 0x1000 == 0,
    ensures
        ({
            let endpoints = snapshot.interrupt_status & 0x000c_0000 != 0;
            let pending = snapshot.device_all_ep_interrupt;
            let core = after_core(bank, snapshot);
            let sent = if endpoints && pending & 0x0000_0002 != 0 {
                core.with_register(Register::InInterrupt(1), snapshot.in1_interrupt)
            } else {
                core
            };
            let received = if endpoints && pending & 0x0002_0000 != 0 {
                sent.with_register(Register::OutInterrupt(1), snapshot.out1_interrupt)
            } else {
                sent
            };
            &&& usb.accepts(snapshot)
            &&& usb.interrupt_result(snapshot).0 == usb
            &&& bank.run(usb.interrupt_result(snapshot).1) == received.with_register(
                Register::InterruptStatus,
                snapshot.interrupt_status,
            )
        }),
{
    lemma_dispatch(snapshot);
    lemma_core(bank, snapshot);
    lemma_acknowledged(usb, bank, snapshot);
    let core = after_core(bank, snapshot);
    let pending = snapshot.ep1_pending();
    lemma_ep1_cleared(usb, core, pending.0, pending.1, snapshot);
    let done = core.run(usb.endpoints_result(snapshot).1);
    assert(core.run(seq![]) == core);
    assert(done.run(seq![]) == done);
}

/// The client is told that a frame has arrived exactly if the status shows an
/// endpoint interrupt (bit 18 or 19), no interrupt of endpoint 0 is pending, one of
/// endpoint 1 OUT is (bit 17), its transfer is complete (bit 0), and there is a
/// client; and that its frame was sent likewise for endpoint 1 IN (bit 1). The other
/// bits of the status do not matter.
pub proof fn law_client_told(usb: USB, snapshot: Snapshot)
    ensures
        ({
            let actions = usb.interrupt_result(snapshot).1;
            let status = snapshot.interrupt_status;
            let pending = snapshot.device_all_ep_interrupt;
            &&& actions.contains(Action::FrameReceived) == (usb.u2f_client && status & 0x000c_0000
                != 0 && pending & 0x0001_0001 == 0 && pending & 0x0002_0000 != 0
                && snapshot.out1_interrupt & 0x1 != 0)
            &&& actions.contains(Action::FrameTransmitted) == (usb.u2f_client && status
                & 0x000c_0000 != 0 && pending & 0x0001_0001 == 0 && pending & 0x0000_0002 != 0
                && snapshot.in1_interrupt & 0x1 != 0)
        }),
{
    lemma_dispatch(snapshot);
    law_callbacks(usb, snapshot);
}

/// The client is told of a frame once, right after the interrupt of that frame was
/// cleared.
pub proof fn law_told_once(usb: USB, snapshot: Snapshot)
    ensures
        ({
            let actions = usb.interrupt_result(snapshot).1;
            &&& forall|i: int|
                0 <= i < actions.len() && (#[trigger] actions[i]) == Action::FrameReceived ==> i > 0
                    && actions[i - 1] == (Action::Write {
                    register: Register::OutInterrupt(1),
                    value: snapshot.out1_interrupt,
                })
            &&& forall|i: int|
                0 <= i < actions.len() && (#[trigger] actions[i]) == Action::FrameTransmitted ==> i
                    > 0 && actions[i - 1] == (Action::Write {
                    register: Register::InInterrupt(1),
                    value: snapshot.in1_interrupt,
                })
            &&& forall|i: int, k: int|
                0 <= i < k < actions.len() && (#[trigger] actions[i]) == (#[trigger] actions[k])
                    ==> actions[i] != Action::FrameReceived && actions[i]
                    != Action::FrameTransmitted
        }),
{
    let actions = usb.interrupt_result(snapshot).1;
    let start = snapshot.core_actions().len();
    let pending = snapshot.ep1_pending();
    let told = usb.ep1_actions(
        pending.0,
        pending.1,
        snapshot.out1_interrupt,
        snapshot.in1_interrupt,
    );
    lemma_ep1_order(
        usb,
        pending.0,
        pending.1,
        snapshot.out1_interrupt,
        snapshot.in1_interrupt,
    );
    assert forall|i: int| 0 <= i < actions.len() && is_callback(#[trigger] actions[i]) implies start
        < i < start + told.len() && actions[i] == told[i - start] && actions[i - 1] == told[i - 1
        - start] by {
        lemma_callback_place(usb, snapshot, i);
    }
}

spec fn is_callback(action: Action) -> bool {
    action == Action::FrameReceived || action == Action::FrameTransmitted
}

proof fn lemma_callback_place(usb: USB, snapshot: Snapshot, i: int)
    requires
        0 <= i < usb.interrupt_result(snapshot).1.len(),
        is_callback(usb.interrupt_result(snapshot).1[i]),
    ensures
        ({
            let actions = usb.interrupt_result(snapshot).1;
            let start = snapshot.core_actions().len();
            let pending = snapshot.ep1_pending();
            let told = usb.ep1_actions(
                pending.0,
                pending.1,
                snapshot.out1_interrupt,
                snapshot.in1_interrupt,
            );
            &&& start < i < start + told.len()
            &&& actions[i] == told[i - start]
            &&& actions[i - 1] == told[i - 1 - start]
        }),
{
    let actions = usb.interrupt_result(snapshot).1;
    let core = snapshot.core_actions();
    let middle = usb.endpoints_result(snapshot).1;
    let reset = usb.reset_part(snapshot);
    let last = Action::Write {
        register: Register::InterruptStatus,
        value: snapshot.interrupt_status,
    };
    lemma_surroundings_plain(usb, snapshot);
    assert(actions == core + middle + reset + seq![last]);
    if snapshot.for_ep0() {
        lemma_ep0_plain(usb, snapshot.ep0_pending().0, snapshot.ep0_pending().1, snapshot);
    }
    assert(!plain(middle) || middle.len() == 0 || !is_callback(middle[i - core.len()]) || !(
    core.len() <= i < core.len() + middle.len())) by {
        reveal(plain);
    }
    assert(core.len() <= i < core.len() + middle.len()) by {
        reveal(plain);
        if i < core.len() {
            assert(actions[i] == core[i]);
        } else if core.len() + middle.len() <= i < actions.len() - 1 {
            assert(actions[i] == reset[i - core.len() - middle.len()]);
        } else if i == actions.len() - 1 {
            assert(actions[i] == last);
        }
    }
    assert(actions[i] == middle[i - core.len()]);
    assert(snapshot.for_ep1());
    let pending = snapshot.ep1_pending();
    lemma_ep1_order(
        usb,
        pending.0,
        pending.1,
        snapshot.out1_interrupt,
        snapshot.in1_interrupt,
    );
    assert(i - core.len() > 0);
    assert(actions[i - 1] == middle[i - 1 - core.len()]);
}

proof fn lemma_ep1_order(
    usb: USB,
    out_interrupt: bool,
    in_interrupt: bool,
    out_interrupts: u32,
    in_interrupts: u32,
)
    ensures
        ({
            let told = usb.ep1_actions(out_interrupt, in_interrupt, out_interrupts, in_interrupts);
            &&& forall|i: int|
                0 <= i < told.len() && (#[trigger] told[i]) == Action::FrameReceived ==> i > 0
                    && told[i - 1] == (Action::Write {
                    register: Register::OutInterrupt(1),
                    value: out_interrupts,
                })
            &&& forall|i: int|
                0 <= i < told.len() && (#[trigger] told[i]) == Action::FrameTransmitted ==> i > 0
                    && told[i - 1] == (Action::Write {
                    register: Register::InInterrupt(1),
                    value: in_interrupts,
                })
            &&& forall|i: int, k: int|
                0 <= i < k < told.len() && (#[trigger] told[i]) == (#[trigger] told[k])
                    ==> !is_callback(told[i])
        }),
{
}

/// Before the interrupts of endpoint 0 are cleared, only the core's bits are seen to:
/// what comes in while the packet is handled raises the next interrupt.
pub proof fn law_cleared_first(usb: USB, snapshot: Snapshot, i: int, k: int)
    requires
        0 <= k < i < usb.interrupt_result(snapshot).1.len(),
        usb.interrupt_result(snapshot).1[i] == (Action::Write {
            register: Register::OutInterrupt(0),
            value: snapshot.out0_interrupt,
        }) || usb.interrupt_result(snapshot).1[i] == (Action::Write {
            register: Register::InInterrupt(0),
            value: snapshot.in0_interrupt,
        }),
    ensures
        match usb.interrupt_result(snapshot).1[k] {
            Action::Modify { register, .. } => register == Register::InterruptMask || register
                == Register::DeviceControl,
            Action::Write { register, .. } => register == Register::OutInterrupt(0),
            _ => false,
        },
{
    let actions = usb.interrupt_result(snapshot).1;
    let core = snapshot.core_actions();
    let middle = usb.endpoints_result(snapshot).1;
    let reset = usb.reset_part(snapshot);
    let last = Action::Write {
        register: Register::InterruptStatus,
        value: snapshot.interrupt_status,
    };
    assert(actions == core + middle + reset + seq![last]);
    lemma_reset_inner(usb.endpoints_result(snapshot).0);
    if core.len() + middle.len() <= i < actions.len() - 1 {
        lemma_inner_at(reset, i - core.len() - middle.len());
        assert(actions[i] == reset[i - core.len() - middle.len()]);
    }
    assert(k < core.len() ==> actions[k] == core[k]);
    if snapshot.for_ep0() {
        let pending = snapshot.ep0_pending();
        let clear = snapshot.ep0_clear_actions(pending.0, pending.1);
        let rest = after_clearing(usb, pending.0, pending.1, snapshot);
        lemma_after_clearing(usb, pending.0, pending.1, snapshot);
        assert(middle == clear + rest);
        if core.len() + clear.len() <= i < core.len() + middle.len() {
            lemma_inner_at(rest, i - core.len() - clear.len());
            assert(actions[i] == rest[i - core.len() - clear.len()]);
        }
        assert(core.len() <= k < core.len() + clear.len() ==> actions[k] == clear[k - core.len()]);
        assert(core.len() <= i < core.len() + clear.len() ==> actions[i] == clear[i - core.len()]);
    } else {
        assert(core.len() <= i < core.len() + middle.len() ==> actions[i] == middle[i
            - core.len()]);
    }
}

/// An interrupt waits for every flush that it starts, and flushes nothing but
/// transmit FIFO 0.
pub proof fn law_flushes_awaited(usb: USB, snapshot: Snapshot)
    ensures
        flushes_awaited(usb.interrupt_result(snapshot).1),
{
    let actions = usb.interrupt_result(snapshot).1;
    let core = snapshot.core_actions();
    let endpoints = usb.endpoints_result(snapshot);
    let reset = usb.reset_part(snapshot);
    let last = seq![
        Action::Write { register: Register::InterruptStatus, value: snapshot.interrupt_status },
    ];
    assert(flushes_awaited(core));
    if snapshot.for_ep0() {
        let pending = snapshot.ep0_pending();
        let clear = snapshot.ep0_clear_actions(pending.0, pending.1);
        let rest = after_clearing(usb, pending.0, pending.1, snapshot);
        lemma_after_clearing(usb, pending.0, pending.1, snapshot);
        lemma_inner_plain(rest);
        assert(flushes_awaited(clear));
        lemma_flushes_concat(clear, rest);
    }
    assert(flushes_awaited(endpoints.1));
    lemma_reset_inner(endpoints.0);
    lemma_inner_plain(reset);
    lemma_flushes_concat(core, endpoints.1);
    lemma_flushes_concat(core + endpoints.1, reset);
    assert(flushes_awaited(last));
    lemma_flushes_concat(core + endpoints.1 + reset, last);
}

// The lists of pending interrupts.

/// An interrupt of the core is listed exactly if its bit is set.
pub proof fn law_core_listed(status: u32, interrupt: Interrupt)
    ensures
        Interrupt::set_in(status).contains(interrupt) == (status & interrupt.mask() != 0),
{
    broadcast use vstd::seq_lib::group_filter_ensures;

    let is_set = |i: Interrupt| any_set(status, i.mask());
    law_core_bits(interrupt);
    if status & interrupt.mask() != 0 {
        let i = choose|i: int| 0 <= i < 23 && Interrupt::all()[i] == interrupt;
        assert(is_set(Interrupt::all()[i]));
    }
    if Interrupt::set_in(status).contains(interrupt) {
        let i = choose|i: int|
            0 <= i < Interrupt::set_in(status).len() && Interrupt::set_in(status)[i] == interrupt;
        assert(is_set(Interrupt::set_in(status)[i]));
    }
}

/// An interrupt of an IN endpoint is listed exactly if its bit is set.
pub proof fn law_in_listed(status: u32, interrupt: InInterrupt)
    ensures
        InInterrupt::set_in(status).contains(interrupt) == (status & interrupt.mask() != 0),
{
    broadcast use vstd::seq_lib::group_filter_ensures;

    let is_set = |i: InInterrupt| any_set(status, i.mask());
    law_in_bits(interrupt);
    if status & interrupt.mask() != 0 {
        let i = choose|i: int| 0 <= i < 15 && InInterrupt::all()[i] == interrupt;
        assert(is_set(InInterrupt::all()[i]));
    }
    if InInterrupt::set_in(status).contains(interrupt) {
        let i = choose|i: int|
            0 <= i < InInterrupt::set_in(status).len() && InInterrupt::set_in(status)[i]
                == interrupt;
        assert(is_set(InInterrupt::set_in(status)[i]));
    }
}

/// Pending interrupts are listed in the order of their bits, each once.
pub proof fn law_listed_in_order(status: u32, i: int, k: int)
    ensures
        0 <= i < k < Interrupt::set_in(status).len() ==> Interrupt::set_in(status)[i].mask()
            < Interrupt::set_in(status)[k].mask(),
        0 <= i < k < InInterrupt::set_in(status).len() ==> InInterrupt::set_in(status)[i].mask()
            < InInterrupt::set_in(status)[k].mask(),
{
    lemma_filter_ordered(
        Interrupt::all(),
        |x: Interrupt| any_set(status, x.mask()),
        |x: Interrupt| x.mask(),
    );
    lemma_filter_ordered(
        InInterrupt::all(),
        |x: InInterrupt| any_set(status, x.mask()),
        |x: InInterrupt| x.mask(),
    );
}

proof fn lemma_filter_ordered<A>(all: Seq<A>, pred: spec_fn(A) -> bool, key: spec_fn(A) -> u32)
    requires
        forall|i: int, k: int|
            0 <= i < k < all.len() ==> key(#[trigger] all[i]) < key(#[trigger] all[k]),
    ensures
        ({
            let kept = all.filter(pred);
            &&& forall|i: int, k: int|
                0 <= i < k < kept.len() ==> key(#[trigger] kept[i]) < key(#[trigger] kept[k])
            &&& forall|i: int|
                0 <= i < kept.len() ==> key(#[trigger] kept[i]) <= key(all[all.len() - 1])
            &&& kept.len() > 0 ==> all.len() > 0
        }),
    decreases all.len(),
{
    reveal(Seq::filter);
    if all.len() > 0 {
        let rest = all.drop_last();
        lemma_filter_ordered(rest, pred, key);
        let kept = rest.filter(pred);
        assert forall|i: int| 0 <= i < kept.len() implies key(#[trigger] kept[i]) < key(
            all[all.len() - 1],
        ) by {
            assert(key(kept[i]) <= key(rest[rest.len() - 1]));
            assert(rest[rest.len() - 1] == all[all.len() - 2]);
        }
    }
}

/// Every interrupt of the core has a bit of its own; they are listed in the order of
/// their bits.
pub proof fn law_core_bits(interrupt: Interrupt)
    ensures
        Interrupt::all().contains(interrupt),
        Interrupt::all().map_values(|i: Interrupt| i.mask()) == seq![
            0x0000_0001u32,
            0x0000_0002,
            0x0000_0004,
            0x0000_0008,
            0x0000_0010,
            0x0000_0040,
            0x0000_0080,
            0x0000_0400,
            0x0000_0800,
            0x0000_1000,
            0x0000_2000,
            0x0000_4000,
            0x0000_8000,
            0x0002_0000,
            0x0004_0000,
            0x0008_0000,
            0x0010_0000,
            0x0020_0000,
            0x0040_0000,
            0x0080_0000,
            0x1000_0000,
            0x4000_0000,
            0x8000_0000,
        ],
{
    let all = Interrupt::all();
    match interrupt {
        Interrupt::HostMode => assert(all[0] == interrupt),
        Interrupt::Mismatch => assert(all[1] == interrupt),
        Interrupt::OTG => assert(all[2] == interrupt),
        Interrupt::SOF => assert(all[3] == interrupt),
        Interrupt::RxFIFO => assert(all[4] == interrupt),
        Interrupt::GlobalInNak => assert(all[5] == interrupt),
        Interrupt::OutNak => assert(all[6] == interrupt),
        Interrupt::EarlySuspend => assert(all[7] == interrupt),
        Interrupt::Suspend => assert(all[8] == interrupt),
        Interrupt::Reset => assert(all[9] == interrupt),
        Interrupt::EnumDone => assert(all[10] == interrupt),
        Interrupt::OutISOCDrop => assert(all[11] == interrupt),
        Interrupt::EOPF => assert(all[12] == interrupt),
        Interrupt::EndpointMismatch => assert(all[13] == interrupt),
        Interrupt::InEndpoints => assert(all[14] == interrupt),
        Interrupt::OutEndpoints => assert(all[15] == interrupt),
        Interrupt::InISOCIncomplete => assert(all[16] == interrupt),
        Interrupt::IncompletePeriodic => assert(all[17] == interrupt),
        Interrupt::FetchSuspend => assert(all[18] == interrupt),
        Interrupt::ResetDetected => assert(all[19] == interrupt),
        Interrupt::ConnectIDChange => assert(all[20] == interrupt),
        Interrupt::SessionRequest => assert(all[21] == interrupt),
        Interrupt::ResumeWakeup => assert(all[22] == interrupt),
    }
    assert(all.map_values(|i: Interrupt| i.mask()) =~= seq![
        0x0000_0001u32,
        0x0000_0002,
        0x0000_0004,
        0x0000_0008,
        0x0000_0010,
        0x0000_0040,
        0x0000_0080,
        0x0000_0400,
        0x0000_0800,
        0x0000_1000,
        0x0000_2000,
        0x0000_4000,
        0x0000_8000,
        0x0002_0000,
        0x0004_0000,
        0x0008_0000,
        0x0010_0000,
        0x0020_0000,
        0x0040_0000,
        0x0080_0000,
        0x1000_0000,
        0x4000_0000,
        0x8000_0000,
    ]);
}

/// Every interrupt of an IN endpoint has a bit of its own; they are listed in the
/// order of their bits.
pub proof fn law_in_bits(interrupt: InInterrupt)
    ensures
        InInterrupt::all().contains(interrupt),
        InInterrupt::all().map_values(|i: InInterrupt| i.mask()) == seq![
            0x0000_0001u32,
            0x0000_0002,
            0x0000_0004,
            0x0000_0008,
            0x0000_0010,
            0x0000_0020,
            0x0000_0040,
            0x0000_0080,
            0x0000_0100,
            0x0000_0200,
            0x0000_0800,
            0x0000_1000,
            0x0000_2000,
            0x0000_4000,
            0x0000_8000,
        ],
{
    let all = InInterrupt::all();
    match interrupt {
        InInterrupt::XferComplete => assert(all[0] == interrupt),
        InInterrupt::EPDisabled => assert(all[1] == interrupt),
        InInterrupt::AHBErr => assert(all[2] == interrupt),
        InInterrupt::Timeout => assert(all[3] == interrupt),
        InInterrupt::InTokenRecv => assert(all[4] == interrupt),
        InInterrupt::InTokenEPMis => assert(all[5] == interrupt),
        InInterrupt::InNakEffect => assert(all[6] == interrupt),
        InInterrupt::TxFifoReady => assert(all[7] == interrupt),
        InInterrupt::TxFifoUnder => assert(all[8] == interrupt),
        InInterrupt::BuffNotAvail => assert(all[9] == interrupt),
        InInterrupt::PacketDrop => assert(all[10] == interrupt),
        InInterrupt::BabbleErr => assert(all[11] == interrupt),
        InInterrupt::NAK => assert(all[12] == interrupt),
        InInterrupt::NYET => assert(all[13] == interrupt),
        InInterrupt::SetupRecvd => assert(all[14] == interrupt),
    }
    assert(all.map_values(|i: InInterrupt| i.mask()) =~= seq![
        0x0000_0001u32,
        0x0000_0002,
        0x0000_0004,
        0x0000_0008,
        0x0000_0010,
        0x0000_0020,
        0x0000_0040,
        0x0000_0080,
        0x0000_0100,
        0x0000_0200,
        0x0000_0800,
        0x0000_1000,
        0x0000_2000,
        0x0000_4000,
        0x0000_8000,
    ]);
}

} // verus!
