//! When the client of endpoint 1 is called back, and when the interrupts of the
//! core are acknowledged.

use vstd::prelude::*;

use crate::action::{store_words, Action, Buffer, Register};
use crate::bank::{all_spare, law_run_spares, spares, Bank};
use crate::bytes::words_of;
use crate::constants::{DEVICE_CONFIG_ADDRESS, IN_XFER_COMPLETE, OUT_XFER_COMPLETE, USB_RESET};
use crate::handler::{Ep0Event, Snapshot};
use crate::interrupt::{any_set, TableCase};
use crate::request::SetupRequest;
use crate::setup::reply_length;
use crate::usb::USB;

verus! {

/// No action of a list calls the client back, nor writes the interrupt status.
#[verifier::opaque]
pub(crate) open spec fn plain(actions: Seq<Action>) -> bool {
    &&& all_spare(actions, Register::InterruptStatus)
    &&& forall|i: int|
        0 <= i < actions.len() ==> (#[trigger] actions[i]) != Action::FrameReceived && actions[i]
            != Action::FrameTransmitted
}

broadcast proof fn lemma_plain_concat(first: Seq<Action>, second: Seq<Action>)
    ensures
        plain(first) && plain(second) ==> #[trigger] plain(first + second),
{
    reveal(plain);
    if plain(first) && plain(second) {
        let both = first + second;
        assert forall|i: int| 0 <= i < both.len() implies spares(
            #[trigger] both[i],
            Register::InterruptStatus,
        ) && both[i] != Action::FrameReceived && both[i] != Action::FrameTransmitted by {
            if i < first.len() {
                assert(both[i] == first[i]);
            } else {
                assert(both[i] == second[i - first.len()]);
            }
        }
    }
}

/// A register that the packets of endpoint 0 may have to do with.
pub open spec fn is_inner(register: Register) -> bool {
    match register {
        Register::Reset => true,
        Register::DeviceConfig => true,
        Register::DeviceAllEpInterruptMask => true,
        Register::InControl(_) => true,
        Register::InDmaAddress(_) => true,
        Register::OutControl(_) => true,
        Register::OutDmaAddress(_) => true,
        _ => false,
    }
}

spec fn inner_action(action: Action) -> bool {
    match action {
        Action::Write { register, value: _ } => is_inner(register),
        Action::Modify { register, clear: _, set: _ } => is_inner(register),
        Action::WaitClear { register: _, mask: _ } => true,
        Action::SetFlags { slot: _, flags: _ } => true,
        Action::SetAddr { slot: _, addr: _ } => true,
        Action::StoreWord { buffer: _, index: _, value: _ } => true,
        _ => false,
    }
}

/// Where a list of actions starts a flush, it flushes transmit FIFO 0, and waits
/// for the end of that next.
pub open spec fn flushes_awaited(actions: Seq<Action>) -> bool {
    forall|i: int|
        0 <= i < actions.len() && !spares(#[trigger] actions[i], Register::Reset) ==> {
            &&& actions[i] == (Action::Write { register: Register::Reset, value: 0x20 })
            &&& i + 1 < actions.len()
            &&& actions[i + 1] == (Action::WaitClear { register: Register::Reset, mask: 0x20 })
        }
}

/// A list of actions only has to do with packets of endpoint 0, and waits for the
/// flushes that it starts.
#[verifier::opaque]
pub(crate) closed spec fn inner(actions: Seq<Action>) -> bool {
    &&& forall|i: int| 0 <= i < actions.len() ==> inner_action(#[trigger] actions[i])
    &&& flushes_awaited(actions)
}

broadcast proof fn lemma_inner_concat(first: Seq<Action>, second: Seq<Action>)
    ensures
        inner(first) && inner(second) ==> #[trigger] inner(first + second),
{
    reveal(inner);
    if inner(first) && inner(second) {
        lemma_flushes_concat(first, second);
        let both = first + second;
        assert forall|i: int| 0 <= i < both.len() implies inner_action(#[trigger] both[i]) by {
            if i < first.len() {
                assert(both[i] == first[i]);
            } else {
                assert(both[i] == second[i - first.len()]);
            }
        }
    }
}

pub(crate) proof fn lemma_flushes_concat(first: Seq<Action>, second: Seq<Action>)
    requires
        flushes_awaited(first),
        flushes_awaited(second),
    ensures
        flushes_awaited(first + second),
{
    let both = first + second;
    assert forall|i: int|
        0 <= i < both.len() && !spares(#[trigger] both[i], Register::Reset) implies {
        &&& both[i] == (Action::Write { register: Register::Reset, value: 0x20 })
        &&& i + 1 < both.len()
        &&& both[i + 1] == (Action::WaitClear { register: Register::Reset, mask: 0x20 })
    } by {
        if i < first.len() {
            assert(both[i] == first[i]);
            assert(both[i + 1] == first[i + 1]);
        } else {
            assert(both[i] == second[i - first.len()]);
            assert(both[i + 1] == second[i + 1 - first.len()]);
        }
    }
}

pub(crate) proof fn lemma_inner_plain(actions: Seq<Action>)
    requires
        inner(actions),
    ensures
        plain(actions),
        flushes_awaited(actions),
{
    reveal(inner);
    reveal(plain);
    assert forall|i: int| 0 <= i < actions.len() implies spares(
        #[trigger] actions[i],
        Register::InterruptStatus,
    ) && actions[i] != Action::FrameReceived && actions[i] != Action::FrameTransmitted by {
        assert(inner_action(actions[i]));
    }
}

pub(crate) proof fn lemma_inner_at(actions: Seq<Action>, i: int)
    requires
        inner(actions),
        0 <= i < actions.len(),
    ensures
        actions[i] matches Action::Write { register, .. } ==> is_inner(register),
{
    reveal(inner);
    assert(inner_action(actions[i]));
}

/// Such a list leaves every other register alone.
pub(crate) proof fn lemma_inner_run(bank: Bank, actions: Seq<Action>)
    requires
        inner(actions),
    ensures
        forall|r: Register|
            !is_inner(r) ==> #[trigger] bank.run(actions).registers[r] == bank.registers[r],
{
    assert forall|r: Register| !is_inner(r) implies #[trigger] bank.run(actions).registers[r]
        == bank.registers[r] by {
        assert(all_spare(actions, r)) by {
            reveal(inner);
            assert forall|i: int| 0 <= i < actions.len() implies spares(
                #[trigger] actions[i],
                r,
            ) by {
                assert(inner_action(actions[i]));
            }
        }
        law_run_spares(bank, actions, r);
    }
}

proof fn lemma_stages_inner(usb: USB, transfer_type: TableCase, bytes: u16)
    ensures
        inner(usb.stall_actions()),
        inner(usb.expect_setup_actions()),
        inner(usb.data_phase_actions(transfer_type)),
        inner(usb.status_phase_actions(transfer_type)),
        inner(usb.arm_in(bytes)),
        inner(usb.setup_u2f_actions()),
        inner(usb.init_ep0_actions()),
{
    assert(inner(usb.stall_actions())) by {
        reveal(inner);
    }
    assert(inner(usb.expect_setup_actions())) by {
        reveal(inner);
    }
    assert(inner(usb.data_phase_actions(transfer_type))) by {
        reveal(inner);
    }
    assert(inner(usb.status_phase_actions(transfer_type))) by {
        reveal(inner);
    }
    assert(inner(usb.arm_in(bytes))) by {
        reveal(inner);
    }
    assert(inner(usb.setup_u2f_actions())) by {
        reveal(inner);
    }
    assert(inner(usb.init_ep0_actions())) by {
        reveal(inner);
    }
}

proof fn lemma_reply_inner(
    usb: USB,
    transfer_type: TableCase,
    data: Seq<u8>,
    len: int,
    w_length: u16,
)
    ensures
        inner(usb.reply_actions(transfer_type, data, len, w_length)),
{
    broadcast use lemma_inner_concat;

    lemma_stages_inner(usb, transfer_type, reply_length(len, w_length));
    lemma_stages_inner(usb, transfer_type, 0);
    assert(inner(store_words(Buffer::Ep0In, words_of(data)))) by {
        reveal(inner);
    }
}

proof fn lemma_request_inner(usb: USB, transfer_type: TableCase, request: SetupRequest)
    ensures
        inner(usb.request_result(transfer_type, request).1),
{
    broadcast use lemma_inner_concat;

    let w_length = request.w_length;
    assert forall|data: Seq<u8>, len: int| inner(
        #[trigger] usb.reply_actions(transfer_type, data, len, w_length),
    ) by {
        lemma_reply_inner(usb, transfer_type, data, len, w_length);
    }
    lemma_stages_inner(usb, transfer_type, 0);
    assert(inner(seq![])) by {
        reveal(inner);
    }
    let modify = Action::Modify {
        register: Register::DeviceConfig,
        clear: DEVICE_CONFIG_ADDRESS,
        set: (0x10 * (request.w_value % 0x80)) as u32,
    };
    assert(inner(seq![modify])) by {
        reveal(inner);
    }
}

/// What follows the clearing of endpoint 0's interrupts.
pub(crate) open spec fn after_clearing(
    usb: USB,
    out_interrupt: bool,
    in_interrupt: bool,
    snapshot: Snapshot,
) -> Seq<Action> {
    usb.receive_actions(out_interrupt, snapshot) + usb.in_completed_actions(in_interrupt, snapshot)
        + usb.received(out_interrupt, snapshot).event_result(
        usb.ep0_event(out_interrupt, snapshot),
        snapshot,
    ).1
}

pub(crate) proof fn lemma_after_clearing(
    usb: USB,
    out_interrupt: bool,
    in_interrupt: bool,
    snapshot: Snapshot,
)
    ensures
        inner(after_clearing(usb, out_interrupt, in_interrupt, snapshot)),
        usb.ep0_result(out_interrupt, in_interrupt, snapshot).1 == snapshot.ep0_clear_actions(
            out_interrupt,
            in_interrupt,
        ) + after_clearing(usb, out_interrupt, in_interrupt, snapshot),
{
    broadcast use lemma_inner_concat;

    let received = usb.received(out_interrupt, snapshot);
    let event = usb.ep0_event(out_interrupt, snapshot);
    assert(inner(received.event_result(event, snapshot).1)) by {
        let transfer_type = TableCase::of(snapshot.out0_interrupt);
        lemma_request_inner(
            received,
            transfer_type,
            received.received_request(snapshot.ep0_out_buffers),
        );
        lemma_stages_inner(received, transfer_type, 0);
        if event != Ep0Event::Setup || received.ep0_out_buffers is None {
            reveal(inner);
        }
    }
    assert(inner(usb.receive_actions(out_interrupt, snapshot))) by {
        reveal(inner);
    }
    assert(inner(usb.in_completed_actions(in_interrupt, snapshot))) by {
        reveal(inner);
    }
    assert(usb.ep0_result(out_interrupt, in_interrupt, snapshot).1
        =~= snapshot.ep0_clear_actions(out_interrupt, in_interrupt) + after_clearing(
        usb,
        out_interrupt,
        in_interrupt,
        snapshot,
    ));
}

pub(crate) proof fn lemma_reset_inner(usb: USB)
    ensures
        inner(usb.reset_actions()),
        inner(seq![]),
{
    broadcast use lemma_inner_concat;

    lemma_stages_inner(usb, TableCase::A, 0);
    lemma_stages_inner(usb.with_clean_ep0(), TableCase::A, 0);
    assert(inner(seq![])) by {
        reveal(inner);
    }
}

pub(crate) proof fn lemma_ep0_plain(
    usb: USB,
    out_interrupt: bool,
    in_interrupt: bool,
    snapshot: Snapshot,
)
    ensures
        plain(usb.ep0_result(out_interrupt, in_interrupt, snapshot).1),
{
    broadcast use lemma_plain_concat;

    lemma_after_clearing(usb, out_interrupt, in_interrupt, snapshot);
    lemma_inner_plain(after_clearing(usb, out_interrupt, in_interrupt, snapshot));
    assert(plain(snapshot.ep0_clear_actions(out_interrupt, in_interrupt))) by {
        reveal(plain);
    }
}

proof fn lemma_ep1_callbacks(
    usb: USB,
    out_interrupt: bool,
    in_interrupt: bool,
    out_interrupts: u32,
    in_interrupts: u32,
)
    ensures
        ({
            let actions = usb.ep1_actions(
                out_interrupt,
                in_interrupt,
                out_interrupts,
                in_interrupts,
            );
            &&& actions.contains(Action::FrameReceived) == (out_interrupt && any_set(
                out_interrupts,
                OUT_XFER_COMPLETE,
            ) && usb.u2f_client)
            &&& actions.contains(Action::FrameTransmitted) == (in_interrupt && any_set(
                in_interrupts,
                IN_XFER_COMPLETE,
            ) && usb.u2f_client)
        }),
{
    let actions = usb.ep1_actions(out_interrupt, in_interrupt, out_interrupts, in_interrupts);
    let sent = in_interrupt && any_set(in_interrupts, IN_XFER_COMPLETE) && usb.u2f_client;
    if sent {
        assert(actions[1] == Action::FrameTransmitted);
    }
    if out_interrupt && any_set(out_interrupts, OUT_XFER_COMPLETE) && usb.u2f_client {
        assert(actions[actions.len() - 1] == Action::FrameReceived);
    }
}

/// The client is told of a frame exactly when a transfer of endpoint 1 in that
/// direction is complete, endpoint 0 has no interrupt pending, and there is a
/// client.
pub proof fn law_callbacks(usb: USB, snapshot: Snapshot)
    ensures
        ({
            let actions = usb.interrupt_result(snapshot).1;
            &&& actions.contains(Action::FrameReceived) == (snapshot.for_ep1()
                && snapshot.ep1_pending().0 && any_set(snapshot.out1_interrupt, OUT_XFER_COMPLETE)
                && usb.u2f_client)
            &&& actions.contains(Action::FrameTransmitted) == (snapshot.for_ep1()
                && snapshot.ep1_pending().1 && any_set(snapshot.in1_interrupt, IN_XFER_COMPLETE)
                && usb.u2f_client)
        }),
{
    let actions = usb.interrupt_result(snapshot).1;
    let endpoints = usb.endpoints_result(snapshot);
    let core = snapshot.core_actions();
    let reset = usb.reset_part(snapshot);
    lemma_surroundings_plain(usb, snapshot);
    assert(actions.drop_last() =~= core + endpoints.1 + reset);
    assert(actions =~= actions.drop_last().push(actions.last()));
    if snapshot.for_ep0() {
        lemma_ep0_plain(usb, snapshot.ep0_pending().0, snapshot.ep0_pending().1, snapshot);
    } else if snapshot.for_ep1() {
        lemma_ep1_callbacks(
            usb,
            snapshot.ep1_pending().0,
            snapshot.ep1_pending().1,
            snapshot.out1_interrupt,
            snapshot.in1_interrupt,
        );
    }
    lemma_contains_between(core, endpoints.1, reset, Action::FrameReceived);
    lemma_contains_between(core, endpoints.1, reset, Action::FrameTransmitted);
    lemma_contains_push(actions.drop_last(), actions.last(), Action::FrameReceived);
    lemma_contains_push(actions.drop_last(), actions.last(), Action::FrameTransmitted);
}

/// The last thing that is done about an interrupt is to clear the interrupts
/// that were seen, and no others: nothing before that writes the interrupt status.
pub proof fn law_interrupt_acknowledged(usb: USB, snapshot: Snapshot)
    ensures
        ({
            let actions = usb.interrupt_result(snapshot).1;
            &&& actions.len() > 0
            &&& actions.last() == (Action::Write {
                register: Register::InterruptStatus,
                value: snapshot.interrupt_status,
            })
            &&& all_spare(actions.drop_last(), Register::InterruptStatus)
        }),
{
    let actions = usb.interrupt_result(snapshot).1;
    let endpoints = usb.endpoints_result(snapshot);
    let core = snapshot.core_actions();
    let reset = usb.reset_part(snapshot);
    lemma_surroundings_plain(usb, snapshot);
    assert(actions.drop_last() =~= core + endpoints.1 + reset);
    if snapshot.for_ep0() {
        lemma_ep0_plain(usb, snapshot.ep0_pending().0, snapshot.ep0_pending().1, snapshot);
    }
    reveal(plain);
    assert(all_spare(endpoints.1, Register::InterruptStatus));
    let head = actions.drop_last();
    assert forall|i: int| 0 <= i < head.len() implies spares(
        #[trigger] head[i],
        Register::InterruptStatus,
    ) by {
        if i < core.len() {
            assert(head[i] == core[i]);
        } else if i < core.len() + endpoints.1.len() {
            assert(head[i] == endpoints.1[i - core.len()]);
        } else {
            assert(head[i] == reset[i - core.len() - endpoints.1.len()]);
        }
    }
}

impl USB {
    /// What is done about a USB reset that an interrupt shows.
    pub(crate) open spec fn reset_part(self, snapshot: Snapshot) -> Seq<Action> {
        if any_set(snapshot.interrupt_status, USB_RESET) {
            self.endpoints_result(snapshot).0.reset_actions()
        } else {
            seq![]
        }
    }
}

pub(crate) proof fn lemma_surroundings_plain(usb: USB, snapshot: Snapshot)
    ensures
        plain(snapshot.core_actions()),
        plain(usb.reset_part(snapshot)),
        plain(seq![]),
{
    let usb = usb.endpoints_result(snapshot).0;
    lemma_reset_inner(usb);
    lemma_inner_plain(usb.reset_actions());
    assert(plain(snapshot.core_actions()) && plain(seq![])) by {
        reveal(plain);
    }
}

proof fn lemma_contains_push(actions: Seq<Action>, last: Action, callback: Action)
    requires
        last != callback,
    ensures
        actions.push(last).contains(callback) == actions.contains(callback),
{
    let all = actions.push(last);
    if actions.contains(callback) {
        let i = choose|i: int| 0 <= i < actions.len() && actions[i] == callback;
        assert(all[i] == callback);
    }
    if all.contains(callback) {
        let i = choose|i: int| 0 <= i < all.len() && all[i] == callback;
        assert(actions[i] == callback);
    }
}

proof fn lemma_contains_between(
    before: Seq<Action>,
    middle: Seq<Action>,
    after: Seq<Action>,
    callback: Action,
)
    requires
        plain(before),
        plain(after),
        callback == Action::FrameReceived || callback == Action::FrameTransmitted,
    ensures
        (before + middle + after).contains(callback) == middle.contains(callback),
        plain(middle) ==> !middle.contains(callback),
{
    reveal(plain);
    let all = before + middle + after;
    if middle.contains(callback) {
        let i = choose|i: int| 0 <= i < middle.len() && middle[i] == callback;
        assert(all[before.len() + i] == callback);
    }
    if all.contains(callback) {
        let i = choose|i: int| 0 <= i < all.len() && all[i] == callback;
        if i < before.len() {
            assert(before[i] == callback);
        } else if i < before.len() + middle.len() {
            assert(middle[i - before.len()] == callback);
        } else {
            assert(after[i - before.len() - middle.len()] == callback);
        }
    }
}

} // verus!
