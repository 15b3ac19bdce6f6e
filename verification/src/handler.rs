//! Interrupts of the controller.

use vstd::prelude::*;

use crate::action::{Action, Register};
use crate::constants::{
    ALL_IN0, ALL_IN1, ALL_OUT0, ALL_OUT1, DESC_SETUP_READY, DEVICE_CONTROL_CLEAR_IN_NAK,
    DEVICE_CONTROL_CLEAR_OUT_NAK, EPCTL_CNAK, EPCTL_ENABLE, GINNAKEFF, GOUTNAKEFF, IEPINT,
    IN_XFER_COMPLETE, OEPINT, OUT_XFER_COMPLETE, SOF, USB_RESET,
};
use crate::interrupt::{any_set, TableCase};
use crate::request::SetupRequest;
use crate::usb::{DMADescriptor, USBState, USB};

verus! {

/// What the hardware shows when an interrupt comes: the interrupt registers, and
/// the memory that the DMA engine writes for endpoint 0 OUT.
#[derive(Debug)]
pub struct Snapshot {
    pub interrupt_status: u32,
    pub interrupt_mask: u32,
    pub device_all_ep_interrupt: u32,
    pub out0_interrupt: u32,
    pub in0_interrupt: u32,
    pub out1_interrupt: u32,
    pub in1_interrupt: u32,
    pub ep0_out_descriptors: [DMADescriptor; 2],
    pub ep0_out_buffers: [[u32; 16]; 2],
}

/// What an interrupt of endpoint 0 calls for.
#[derive(Copy, Clone, PartialEq, Eq, Structural, Debug)]
pub enum Ep0Event {
    /// Nothing.
    Nothing,
    /// Handle the SETUP packet that has arrived.
    Setup,
    /// Wait for a SETUP packet.
    ExpectSetup,
    /// The host has asked for the IN packet: let both directions go on.
    InDetected,
    /// Stall, and keep waiting for a SETUP packet.
    Stall,
    /// A packet other than SETUP has arrived where only SETUP may: fatal.
    NotSetup,
}

impl Ep0Event {
    /// What an interrupt calls for in a stage, given whether it comes from OUT,
    /// its case, and whether the descriptor that received last holds a SETUP
    /// packet.
    pub open spec fn of(
        state: USBState,
        out_interrupt: bool,
        transfer_type: TableCase,
        setup_ready: bool,
    ) -> Ep0Event {
        match (state, transfer_type) {
            // A packet has arrived. Unless the stage is the first one, only an
            // OUT interrupt counts.
            (USBState::WaitingForSetupPacket, TableCase::A | TableCase::C) => if setup_ready {
                Ep0Event::Setup
            } else {
                Ep0Event::NotSetup
            },
            (_, TableCase::A | TableCase::C) => if !out_interrupt {
                Ep0Event::Nothing
            } else if setup_ready {
                Ep0Event::Setup
            } else {
                Ep0Event::ExpectSetup
            },
            // The setup phase is done. This only happens in the first stage
            // when the endpoint is stalling.
            (USBState::WaitingForSetupPacket, TableCase::B) => Ep0Event::Stall,
            (_, TableCase::B) => if out_interrupt {
                Ep0Event::InDetected
            } else {
                Ep0Event::Nothing
            },
            // The status phase has come.
            (USBState::NoDataStage, TableCase::D | TableCase::E) => if out_interrupt {
                Ep0Event::ExpectSetup
            } else {
                Ep0Event::Nothing
            },
            (_, TableCase::D | TableCase::E) => Ep0Event::Nothing,
        }
    }

    /// What an interrupt calls for.
    pub fn decide(
        state: USBState,
        out_interrupt: bool,
        transfer_type: TableCase,
        setup_ready: bool,
    ) -> (event: Ep0Event)
        ensures
            event == Ep0Event::of(state, out_interrupt, transfer_type, setup_ready),
    {
        match state {
            USBState::WaitingForSetupPacket => {
                if transfer_type == TableCase::A || transfer_type == TableCase::C {
                    if setup_ready {
                        Ep0Event::Setup
                    } else {
                        Ep0Event::NotSetup
                    }
                } else if transfer_type == TableCase::B {
                    Ep0Event::Stall
                } else {
                    Ep0Event::Nothing
                }
            },
            USBState::DataStageIn => {
                if !out_interrupt {
                    Ep0Event::Nothing
                } else if transfer_type == TableCase::B {
                    Ep0Event::InDetected
                } else if transfer_type == TableCase::A || transfer_type == TableCase::C {
                    if setup_ready {
                        Ep0Event::Setup
                    } else {
                        Ep0Event::ExpectSetup
                    }
                } else {
                    Ep0Event::Nothing
                }
            },
            USBState::NoDataStage => {
                if !out_interrupt {
                    Ep0Event::Nothing
                } else if transfer_type == TableCase::B {
                    Ep0Event::InDetected
                } else if transfer_type == TableCase::A || transfer_type == TableCase::C {
                    if setup_ready {
                        Ep0Event::Setup
                    } else {
                        Ep0Event::ExpectSetup
                    }
                } else {
                    Ep0Event::ExpectSetup
                }
            },
        }
    }
}

impl Snapshot {
    /// Endpoint 0 has an interrupt pending, in the OUT and in the IN direction.
    pub open spec fn ep0_pending(self) -> (bool, bool) {
        (
            any_set(self.device_all_ep_interrupt, ALL_OUT0),
            any_set(self.device_all_ep_interrupt, ALL_IN0),
        )
    }

    /// Endpoint 1 has an interrupt pending, in the OUT and in the IN direction.
    pub open spec fn ep1_pending(self) -> (bool, bool) {
        (
            any_set(self.device_all_ep_interrupt, ALL_OUT1),
            any_set(self.device_all_ep_interrupt, ALL_IN1),
        )
    }

    /// The events of endpoint 0 are to be handled.
    pub open spec fn for_ep0(self) -> bool {
        any_set(self.interrupt_status, OEPINT | IEPINT) && (self.ep0_pending().0
            || self.ep0_pending().1)
    }

    /// The events of endpoint 1 are to be handled: only when endpoint 0 has none.
    pub open spec fn for_ep1(self) -> bool {
        any_set(self.interrupt_status, OEPINT | IEPINT) && !self.for_ep0() && (
        self.ep1_pending().0 || self.ep1_pending().1)
    }

    /// The flags of OUT descriptor `index` say that it holds a SETUP packet.
    pub open spec fn setup_ready(self, index: usize) -> bool {
        self.ep0_out_descriptors@[index as int].flags & DESC_SETUP_READY == DESC_SETUP_READY
    }

    /// What clears the pending interrupts of endpoint 0.
    pub open spec fn ep0_clear_actions(self, out_interrupt: bool, in_interrupt: bool) -> Seq<
        Action,
    > {
        (if out_interrupt {
            seq![Action::Write { register: Register::OutInterrupt(0), value: self.out0_interrupt }]
        } else {
            seq![]
        }) + (if in_interrupt {
            seq![Action::Write { register: Register::InInterrupt(0), value: self.in0_interrupt }]
        } else {
            seq![]
        })
    }

    /// What the core interrupts ask for before the endpoints are looked at.
    pub open spec fn core_actions(self) -> Seq<Action> {
        (if any_set(self.interrupt_mask & self.interrupt_status, SOF) {
            seq![Action::Modify { register: Register::InterruptMask, clear: SOF, set: 0 }]
        } else {
            seq![]
        }) + (if any_set(self.interrupt_status, GOUTNAKEFF) {
            seq![
                Action::Modify {
                    register: Register::DeviceControl,
                    clear: 0,
                    set: DEVICE_CONTROL_CLEAR_OUT_NAK,
                },
            ]
        } else {
            seq![]
        }) + (if any_set(self.interrupt_status, GINNAKEFF) {
            seq![
                Action::Modify {
                    register: Register::DeviceControl,
                    clear: 0,
                    set: DEVICE_CONTROL_CLEAR_IN_NAK,
                },
            ]
        } else {
            seq![]
        })
    }
}

impl USB {
    /// The driver after the OUT descriptors were swapped, if an OUT transfer is
    /// complete.
    pub open spec fn received(self, out_interrupt: bool, snapshot: Snapshot) -> USB {
        if out_interrupt && any_set(snapshot.out0_interrupt, OUT_XFER_COMPLETE) {
            self.swapped()
        } else {
            self
        }
    }

    /// What swaps the OUT descriptors, if an OUT transfer is complete.
    pub open spec fn receive_actions(self, out_interrupt: bool, snapshot: Snapshot) -> Seq<
        Action,
    > {
        if out_interrupt && any_set(snapshot.out0_interrupt, OUT_XFER_COMPLETE) {
            self.swap_actions()
        } else {
            seq![]
        }
    }

    /// What endpoint 0's interrupts call for.
    pub open spec fn ep0_event(self, out_interrupt: bool, snapshot: Snapshot) -> Ep0Event {
        Ep0Event::of(
            self.state,
            out_interrupt,
            TableCase::of(snapshot.out0_interrupt),
            snapshot.setup_ready(self.received(out_interrupt, snapshot).last_ep0_out_idx),
        )
    }

    /// Whether endpoint 0's events can be handled: there are OUT descriptors, no
    /// packet has come that must not, and a request that has come is supported.
    pub open spec fn ep0_supported(self, out_interrupt: bool, snapshot: Snapshot) -> bool {
        &&& self.ep0_out_descriptors is Some
        &&& self.ep0_event(out_interrupt, snapshot) != Ep0Event::NotSetup
        &&& self.ep0_event(out_interrupt, snapshot) == Ep0Event::Setup ==> self.received(
            out_interrupt,
            snapshot,
        ).setup_supported(snapshot.ep0_out_buffers)
    }

    /// An IN transfer of the data or status stage has completed.
    pub open spec fn in_completed(self, in_interrupt: bool, snapshot: Snapshot) -> bool {
        &&& in_interrupt
        &&& match self.state {
            USBState::WaitingForSetupPacket => false,
            USBState::DataStageIn => any_set(snapshot.in0_interrupt, IN_XFER_COMPLETE),
            USBState::NoDataStage => any_set(snapshot.in0_interrupt, ALL_IN0),
        }
    }

    /// What re-enables endpoint 0 IN after such a transfer.
    pub open spec fn in_completed_actions(self, in_interrupt: bool, snapshot: Snapshot) -> Seq<
        Action,
    > {
        if self.in_completed(in_interrupt, snapshot) {
            seq![Action::Write { register: Register::InControl(0), value: EPCTL_ENABLE }]
        } else {
            seq![]
        }
    }

    /// What the driver does about an event of endpoint 0.
    pub open spec fn event_result(self, event: Ep0Event, snapshot: Snapshot) -> (USB, Seq<Action>) {
        match event {
            Ep0Event::Setup => self.setup_result(
                TableCase::of(snapshot.out0_interrupt),
                snapshot.ep0_out_buffers,
            ),
            Ep0Event::ExpectSetup => (
                self.in_state(USBState::WaitingForSetupPacket),
                self.expect_setup_actions(),
            ),
            Ep0Event::InDetected => (
                self,
                seq![
                    Action::Write {
                        register: Register::InControl(0),
                        value: EPCTL_ENABLE | EPCTL_CNAK,
                    },
                    Action::Write {
                        register: Register::OutControl(0),
                        value: EPCTL_ENABLE | EPCTL_CNAK,
                    },
                ],
            ),
            Ep0Event::Stall => self.stalled(),
            Ep0Event::Nothing => (self, seq![]),
            Ep0Event::NotSetup => (self, seq![]),
        }
    }

    /// What the driver does about endpoint 0's interrupts.
    pub open spec fn ep0_result(
        self,
        out_interrupt: bool,
        in_interrupt: bool,
        snapshot: Snapshot,
    ) -> (USB, Seq<Action>) {
        let received = self.received(out_interrupt, snapshot);
        let result = received.event_result(self.ep0_event(out_interrupt, snapshot), snapshot);
        (
            result.0,
            snapshot.ep0_clear_actions(out_interrupt, in_interrupt) + self.receive_actions(
                out_interrupt,
                snapshot,
            ) + self.in_completed_actions(in_interrupt, snapshot) + result.1,
        )
    }

    /// Clears the pending interrupt flags of endpoint 0, swaps the OUT
    /// descriptors if a packet has come in, and re-enables IN if one has gone
    /// out.
    fn acknowledge(
        &mut self,
        out_interrupt: bool,
        in_interrupt: bool,
        snapshot: &Snapshot,
        out: &mut Vec<Action>,
    )
        requires
            old(self).wf(),
        ensures
            final(self).wf(),
            *final(self) == old(self).received(out_interrupt, *snapshot),
            final(out)@ == old(out)@ + (snapshot.ep0_clear_actions(out_interrupt, in_interrupt)
                + old(self).receive_actions(out_interrupt, *snapshot)
                + old(self).in_completed_actions(in_interrupt, *snapshot)),
    {
        let ep_out_interrupts: u32 = snapshot.out0_interrupt;
        let ep_in_interrupts: u32 = snapshot.in0_interrupt;
        if out_interrupt {
            out.push(
                Action::Write { register: Register::OutInterrupt(0), value: ep_out_interrupts },
            );
        }
        if in_interrupt {
            out.push(
                Action::Write { register: Register::InInterrupt(0), value: ep_in_interrupts },
            );
        }
        // If the transfer is complete, swap which OUT descriptor to use, so that
        // the next packet can be received at once.
        if out_interrupt && ep_out_interrupts & OUT_XFER_COMPLETE != 0 {
            self.swap_ep0_out_descriptors(out);
        }
        let in_completed: bool = match self.state {
            USBState::WaitingForSetupPacket => false,
            USBState::DataStageIn => in_interrupt && ep_in_interrupts & IN_XFER_COMPLETE != 0,
            USBState::NoDataStage => in_interrupt && ep_in_interrupts & ALL_IN0 != 0,
        };
        if in_completed {
            out.push(Action::Write { register: Register::InControl(0), value: EPCTL_ENABLE });
        }
    }

    /// Does what an event of endpoint 0 calls for.
    fn handle_event(&mut self, event: Ep0Event, snapshot: &Snapshot, out: &mut Vec<Action>)
        requires
            old(self).wf(),
            event == Ep0Event::Setup ==> old(self).setup_supported(snapshot.ep0_out_buffers),
        ensures
            final(self).wf(),
            *final(self) == old(self).event_result(event, *snapshot).0,
            final(out)@ == old(out)@ + old(self).event_result(event, *snapshot).1,
    {
        match event {
            Ep0Event::Setup => {
                let transfer_type: TableCase = TableCase::decode_interrupt(
                    snapshot.out0_interrupt,
                );
                self.handle_setup(transfer_type, &snapshot.ep0_out_buffers, out);
            },
            Ep0Event::ExpectSetup => {
                self.expect_setup_packet(out);
            },
            Ep0Event::InDetected => {
                out.push(
                    Action::Write {
                        register: Register::InControl(0),
                        value: EPCTL_ENABLE | EPCTL_CNAK,
                    },
                );
                out.push(
                    Action::Write {
                        register: Register::OutControl(0),
                        value: EPCTL_ENABLE | EPCTL_CNAK,
                    },
                );
            },
            Ep0Event::Stall => {
                self.stall_both_fifos(out);
            },
            Ep0Event::Nothing => {},
            Ep0Event::NotSetup => {},
        }
    }

    /// Handles all events of endpoint 0: clears the pending interrupt flags,
    /// swaps buffers if a packet has come in, and then does what the packet or
    /// the phase calls for.
    pub fn handle_endpoint0_events(
        &mut self,
        out_interrupt: bool,
        in_interrupt: bool,
        snapshot: &Snapshot,
        out: &mut Vec<Action>,
    )
        requires
            old(self).wf(),
            old(self).ep0_supported(out_interrupt, *snapshot),
        ensures
            final(self).wf(),
            *final(self) == old(self).ep0_result(out_interrupt, in_interrupt, *snapshot).0,
            final(out)@ == old(out)@ + old(self).ep0_result(
                out_interrupt,
                in_interrupt,
                *snapshot,
            ).1,
    {
        self.acknowledge(out_interrupt, in_interrupt, snapshot, out);
        let transfer_type: TableCase = TableCase::decode_interrupt(snapshot.out0_interrupt);
        let flags: u32 = snapshot.ep0_out_descriptors[self.last_ep0_out_idx].flags;
        let setup_ready: bool = flags & DESC_SETUP_READY == DESC_SETUP_READY;
        let event: Ep0Event = Ep0Event::decide(
            self.state,
            out_interrupt,
            transfer_type,
            setup_ready,
        );
        self.handle_event(event, snapshot, out);
    }

    /// Whether an interrupt can be handled.
    pub open spec fn accepts(self, snapshot: Snapshot) -> bool {
        snapshot.for_ep0() ==> self.ep0_supported(snapshot.ep0_pending().0, snapshot)
    }

    /// What the driver does about the interrupts of the endpoints.
    pub open spec fn endpoints_result(self, snapshot: Snapshot) -> (USB, Seq<Action>) {
        if snapshot.for_ep0() {
            self.ep0_result(snapshot.ep0_pending().0, snapshot.ep0_pending().1, snapshot)
        } else if snapshot.for_ep1() {
            (
                self,
                self.ep1_actions(
                    snapshot.ep1_pending().0,
                    snapshot.ep1_pending().1,
                    snapshot.out1_interrupt,
                    snapshot.in1_interrupt,
                ),
            )
        } else {
            (self, seq![])
        }
    }

    /// What the driver does about an interrupt: first about the core, then about
    /// the endpoints, then about a reset. At the end the interrupts that were
    /// seen are cleared.
    pub open spec fn interrupt_result(self, snapshot: Snapshot) -> (USB, Seq<Action>) {
        let endpoints = self.endpoints_result(snapshot);
        let reset = any_set(snapshot.interrupt_status, USB_RESET);
        (
            if reset { endpoints.0.after_reset() } else { endpoints.0 },
            snapshot.core_actions() + endpoints.1 + (if reset {
                endpoints.0.reset_actions()
            } else {
                seq![]
            }) + seq![
                Action::Write {
                    register: Register::InterruptStatus,
                    value: snapshot.interrupt_status,
                },
            ],
        )
    }

    /// Whether an interrupt can be handled: the driver is ready for the events
    /// of endpoint 0 that it brings, and supports the request that has come.
    pub fn accepts_interrupt(&self, snapshot: &Snapshot) -> (r: bool)
        requires
            self.wf(),
        ensures
            r == self.accepts(*snapshot),
    {
        let pending: u32 = snapshot.device_all_ep_interrupt;
        let out_interrupt: bool = pending & ALL_OUT0 != 0;
        let in_interrupt: bool = pending & ALL_IN0 != 0;
        if snapshot.interrupt_status & (OEPINT | IEPINT) == 0 {
            return true;
        }
        if !out_interrupt && !in_interrupt {
            return true;
        }
        if self.ep0_out_descriptors.is_none() {
            return false;
        }
        let last: usize = if out_interrupt && snapshot.out0_interrupt & OUT_XFER_COMPLETE != 0 {
            self.next_ep0_out_idx
        } else {
            self.last_ep0_out_idx
        };
        let flags: u32 = snapshot.ep0_out_descriptors[last].flags;
        let setup_ready: bool = flags & DESC_SETUP_READY == DESC_SETUP_READY;
        let transfer_type: TableCase = TableCase::decode_interrupt(snapshot.out0_interrupt);
        match Ep0Event::decide(self.state, out_interrupt, transfer_type, setup_ready) {
            Ep0Event::NotSetup => false,
            Ep0Event::Setup => self.ep0_out_buffers.is_none() || self.supports_request(
                &SetupRequest::new(&snapshot.ep0_out_buffers[last]),
            ),
            _ => true,
        }
    }

    /// Handles an interrupt of the controller.
    ///
    /// Directly handles events related to device initialization, connection and
    /// disconnection, as well as control transfers on endpoint 0. Other events
    /// are passed to the client of endpoint 1.
    pub fn handle_interrupt(&mut self, snapshot: &Snapshot) -> (actions: Vec<Action>)
        requires
            old(self).wf(),
            old(self).accepts(*snapshot),
        ensures
            final(self).wf(),
            *final(self) == old(self).interrupt_result(*snapshot).0,
            actions@ == old(self).interrupt_result(*snapshot).1,
    {
        let mut out: Vec<Action> = Vec::new();
        // The snapshot of the status serves to clear it correctly at the end.
        let status: u32 = snapshot.interrupt_status;
        if snapshot.interrupt_mask & status & SOF != 0 {
            out.push(Action::Modify { register: Register::InterruptMask, clear: SOF, set: 0 });
        }
        if status & GOUTNAKEFF != 0 {
            out.push(
                Action::Modify {
                    register: Register::DeviceControl,
                    clear: 0,
                    set: DEVICE_CONTROL_CLEAR_OUT_NAK,
                },
            );
        }
        if status & GINNAKEFF != 0 {
            out.push(
                Action::Modify {
                    register: Register::DeviceControl,
                    clear: 0,
                    set: DEVICE_CONTROL_CLEAR_IN_NAK,
                },
            );
        }
        assert(out@ =~= snapshot.core_actions());
        if status & (OEPINT | IEPINT) != 0 {
            let pending: u32 = snapshot.device_all_ep_interrupt;
            let inter_ep0_out: bool = pending & ALL_OUT0 != 0;
            let inter_ep0_in: bool = pending & ALL_IN0 != 0;
            let inter_ep1_out: bool = pending & ALL_OUT1 != 0;
            let inter_ep1_in: bool = pending & ALL_IN1 != 0;
            if inter_ep0_out || inter_ep0_in {
                self.handle_endpoint0_events(inter_ep0_out, inter_ep0_in, snapshot, &mut out);
            } else if inter_ep1_out || inter_ep1_in {
                self.handle_endpoint1_events(
                    inter_ep1_out,
                    inter_ep1_in,
                    snapshot.out1_interrupt,
                    snapshot.in1_interrupt,
                    &mut out,
                );
            }
        }
        assert(out@ =~= snapshot.core_actions() + old(self).endpoints_result(*snapshot).1);
        if status & USB_RESET != 0 {
            self.usb_reset(&mut out);
        }
        out.push(Action::Write { register: Register::InterruptStatus, value: status });
        out
    }
}

} // verus!
