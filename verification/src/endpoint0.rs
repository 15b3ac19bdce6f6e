//! Endpoint 0: the stages of a control transfer.

use vstd::prelude::*;

use crate::action::{Action, DmaSlot, Register};
use crate::constants::{
    ALL_IN0, ALL_OUT0, DESC_HOST_BUSY, DESC_HOST_READY, DESC_IOC, DESC_LAST, DESC_SHORT,
    DMA_DESCRIPTOR_SIZE, EP0_IN_BUFFER_COUNT, EP0_OUT_BUFFER_COUNT, EPCTL_CNAK, EPCTL_ENABLE,
    EPCTL_STALL, FLUSH_ALL_FIFOS, RESET_RX_FLUSH, RESET_TX_FLUSH,
};
use crate::interrupt::TableCase;
use crate::usb::{USBState, USB};

verus! {

/// Descriptor flags with a byte count.
pub open spec fn flags_with(bits: u32, bytes: u16) -> u32 {
    bits | bytes as u32
}

/// Descriptor flags with a byte count.
pub fn with_bytes(bits: u32, bytes: u16) -> (flags: u32)
    ensures
        flags == flags_with(bits, bytes),
{
    bits | bytes as u32
}

/// The flags of an OUT descriptor that may receive one packet of 64 bytes.
pub open spec fn receive_flags() -> u32 {
    flags_with(DESC_HOST_READY | DESC_LAST | DESC_IOC, 64)
}

/// The flags of an OUT descriptor of a stalled endpoint.
pub open spec fn stall_flags() -> u32 {
    flags_with(DESC_LAST | DESC_IOC, 64)
}

/// The flags of an IN descriptor with `bytes` bytes to send.
pub open spec fn send_flags(bytes: u16) -> u32 {
    flags_with(DESC_HOST_READY | DESC_LAST | DESC_SHORT | DESC_IOC, bytes)
}

/// What flushes transmit FIFO `fifo_num`, or all of them from number 16 on.
pub open spec fn flush_tx_actions(fifo_num: u8) -> Seq<Action> {
    let selected: int = if fifo_num < FLUSH_ALL_FIFOS { fifo_num as int } else { 16 };
    seq![
        Action::Write {
            register: Register::Reset,
            value: (0x20 + 0x40 * selected) as u32,
        },
        Action::WaitClear { register: Register::Reset, mask: RESET_TX_FLUSH },
    ]
}

/// What flushes the receive FIFO.
pub open spec fn flush_rx_actions() -> Seq<Action> {
    seq![
        Action::Write { register: Register::Reset, value: RESET_RX_FLUSH },
        Action::WaitClear { register: Register::Reset, mask: RESET_RX_FLUSH },
    ]
}

/// Flushes endpoint 0's RX FIFO.
///
/// Only to be done while no transaction is underway and no data of this FIFO is
/// being copied.
pub fn flush_rx_fifo(out: &mut Vec<Action>)
    ensures
        final(out)@ == old(out)@ + flush_rx_actions(),
{
    out.push(Action::Write { register: Register::Reset, value: RESET_RX_FLUSH });
    out.push(Action::WaitClear { register: Register::Reset, mask: RESET_RX_FLUSH });
}

/// Flushes one or all endpoint TX FIFOs: `fifo_num` is 0x0 to 0xF for a
/// particular one, and 0x10 for all.
///
/// Only to be done while no transaction is underway and no data of this FIFO is
/// being copied.
pub fn flush_tx_fifo(fifo_num: u8, out: &mut Vec<Action>)
    ensures
        final(out)@ == old(out)@ + flush_tx_actions(fifo_num),
{
    let selected: u32 = if fifo_num < FLUSH_ALL_FIFOS { fifo_num as u32 } else {
        FLUSH_ALL_FIFOS as u32
    };
    let value: u32 = RESET_TX_FLUSH | (selected << 6);
    assert(value == 0x20 + 0x40 * selected) by (bit_vector)
        requires
            selected <= 16,
            value == RESET_TX_FLUSH | (selected << 6),
    ;
    out.push(Action::Write { register: Register::Reset, value });
    out.push(Action::WaitClear { register: Register::Reset, mask: RESET_TX_FLUSH });
}

/// The control bits that let an endpoint go on. Only in case C is the NAK
/// cleared with them: in the other cases that would respond to a packet that is
/// not a SETUP packet, while the SETUP packet has to be responded to first.
pub open spec fn enable_bits(transfer_type: TableCase) -> u32 {
    if transfer_type == TableCase::C {
        EPCTL_ENABLE | EPCTL_CNAK
    } else {
        EPCTL_ENABLE
    }
}

fn enable_control(transfer_type: TableCase) -> (bits: u32)
    ensures
        bits == enable_bits(transfer_type),
{
    if transfer_type == TableCase::C {
        EPCTL_ENABLE | EPCTL_CNAK
    } else {
        EPCTL_ENABLE
    }
}

/// Listen to endpoint 0 OUT only.
pub open spec fn listen_out() -> Action {
    Action::Modify { register: Register::DeviceAllEpInterruptMask, clear: ALL_IN0, set: ALL_OUT0 }
}

/// Listen to endpoint 0 in both directions.
pub open spec fn listen_both() -> Action {
    Action::Modify {
        register: Register::DeviceAllEpInterruptMask,
        clear: 0,
        set: ALL_IN0 | ALL_OUT0,
    }
}

/// What puts the first `count` of the descriptors `slot` back to a clean state,
/// descriptor `i` pointing to the `i`-th 64 bytes after `buffers`.
pub open spec fn clean_actions(slot: spec_fn(usize) -> DmaSlot, buffers: u32, count: nat) -> Seq<
    Action,
> {
    Seq::new(
        2 * count,
        |k: int|
            if k % 2 == 0 {
                Action::SetFlags { slot: slot((k / 2) as usize), flags: DESC_HOST_BUSY }
            } else {
                Action::SetAddr {
                    slot: slot((k / 2) as usize),
                    addr: (buffers + 64 * (k / 2)) as u32,
                }
            },
    )
}

impl USB {
    /// What sets the flags of the OUT descriptor that receives next.
    pub open spec fn arm_out(self, flags: u32) -> Seq<Action> {
        if self.ep0_out_descriptors is Some {
            seq![Action::SetFlags { slot: DmaSlot::Ep0Out(self.next_ep0_out_idx), flags }]
        } else {
            seq![]
        }
    }

    /// What makes endpoint 0 receive a SETUP packet.
    pub open spec fn expect_setup_actions(self) -> Seq<Action> {
        self.arm_out(receive_flags()) + seq![
            listen_out(),
            Action::Write {
                register: Register::OutControl(0),
                value: EPCTL_ENABLE | EPCTL_CNAK,
            },
        ]
    }

    /// What stalls both directions of endpoint 0.
    pub open spec fn stall_actions(self) -> Seq<Action> {
        self.arm_out(stall_flags()) + seq![
            listen_out(),
            Action::Write {
                register: Register::OutControl(0),
                value: EPCTL_ENABLE | EPCTL_STALL,
            },
        ] + flush_tx_actions(0) + seq![
            Action::Write {
                register: Register::InControl(0),
                value: EPCTL_ENABLE | EPCTL_STALL,
            },
        ]
    }

    /// What starts sending from the IN descriptors at `in_descriptors`, while
    /// the next OUT packet may come.
    pub open spec fn start_in_actions(self, transfer_type: TableCase, in_descriptors: u32) -> Seq<
        Action,
    > {
        flush_tx_actions(0) + seq![
            Action::Write { register: Register::InDmaAddress(0), value: in_descriptors },
            Action::Write { register: Register::InControl(0), value: enable_bits(transfer_type) },
        ] + self.arm_out(receive_flags()) + seq![
            Action::Write { register: Register::OutControl(0), value: enable_bits(transfer_type) },
            listen_both(),
        ]
    }

    /// What starts a data phase to the host.
    pub open spec fn data_phase_actions(self, transfer_type: TableCase) -> Seq<Action> {
        match self.ep0_in_descriptors {
            Some(in_descriptors) => self.start_in_actions(transfer_type, in_descriptors),
            None => seq![],
        }
    }

    /// What starts a status phase: a packet of no bytes to the host.
    pub open spec fn status_phase_actions(self, transfer_type: TableCase) -> Seq<Action> {
        match self.ep0_in_descriptors {
            Some(in_descriptors) => (match self.ep0_in_buffers {
                Some(addr) => seq![Action::SetAddr { slot: DmaSlot::Ep0In(0), addr }],
                None => seq![],
            }) + seq![Action::SetFlags { slot: DmaSlot::Ep0In(0), flags: send_flags(0) }]
                + self.start_in_actions(transfer_type, in_descriptors),
            None => seq![],
        }
    }

    /// The driver in another stage.
    pub open spec fn in_state(self, state: USBState) -> USB {
        USB { state, ..self }
    }

    /// Sets up endpoint 0 OUT to receive a SETUP packet from the host, whose
    /// reception will trigger an interrupt. Disables IN interrupts, as the
    /// device should not be sending anything, and enables OUT interrupts.
    ///
    /// A SETUP packet is shorter than 64 bytes, so one descriptor is enough.
    pub fn expect_setup_packet(&mut self, out: &mut Vec<Action>)
        ensures
            *final(self) == old(self).in_state(USBState::WaitingForSetupPacket),
            final(out)@ == old(out)@ + old(self).expect_setup_actions(),
    {
        self.state = USBState::WaitingForSetupPacket;
        self.set_next_out_flags(
            with_bytes(DESC_HOST_READY | DESC_LAST | DESC_IOC, 64),
            out,
        );
        out.push(
            Action::Modify {
                register: Register::DeviceAllEpInterruptMask,
                clear: ALL_IN0,
                set: ALL_OUT0,
            },
        );
        // Clearing the NAK bit tells the host that the device is ready to receive.
        out.push(
            Action::Write {
                register: Register::OutControl(0),
                value: EPCTL_ENABLE | EPCTL_CNAK,
            },
        );
    }

    /// Stalls both the IN and the OUT direction of endpoint 0.
    ///
    /// A stalled endpoint is unable to transmit or receive data. A stall while
    /// waiting for a SETUP packet makes the host send a new one: it says that the
    /// request was not understood or has to be sent again.
    pub fn stall_both_fifos(&mut self, out: &mut Vec<Action>)
        ensures
            *final(self) == old(self).in_state(USBState::WaitingForSetupPacket),
            final(out)@ == old(out)@ + old(self).stall_actions(),
    {
        self.state = USBState::WaitingForSetupPacket;
        self.set_next_out_flags(with_bytes(DESC_LAST | DESC_IOC, 64), out);
        out.push(
            Action::Modify {
                register: Register::DeviceAllEpInterruptMask,
                clear: ALL_IN0,
                set: ALL_OUT0,
            },
        );
        out.push(
            Action::Write {
                register: Register::OutControl(0),
                value: EPCTL_ENABLE | EPCTL_STALL,
            },
        );
        flush_tx_fifo(0, out);
        out.push(
            Action::Write {
                register: Register::InControl(0),
                value: EPCTL_ENABLE | EPCTL_STALL,
            },
        );
    }

    /// Sets the flags of the OUT descriptor that receives next.
    fn set_next_out_flags(&self, flags: u32, out: &mut Vec<Action>)
        ensures
            final(out)@ == old(out)@ + self.arm_out(flags),
    {
        if self.ep0_out_descriptors.is_some() {
            out.push(Action::SetFlags { slot: DmaSlot::Ep0Out(self.next_ep0_out_idx), flags });
        }
    }

    /// Starts sending from the IN descriptors at `in_descriptors`.
    fn start_in(&self, transfer_type: TableCase, in_descriptors: u32, out: &mut Vec<Action>)
        ensures
            final(out)@ == old(out)@ + self.start_in_actions(transfer_type, in_descriptors),
    {
        flush_tx_fifo(0, out);
        out.push(Action::Write { register: Register::InDmaAddress(0), value: in_descriptors });
        out.push(
            Action::Write {
                register: Register::InControl(0),
                value: enable_control(transfer_type),
            },
        );
        self.set_next_out_flags(with_bytes(DESC_HOST_READY | DESC_LAST | DESC_IOC, 64), out);
        out.push(
            Action::Write {
                register: Register::OutControl(0),
                value: enable_control(transfer_type),
            },
        );
        out.push(
            Action::Modify {
                register: Register::DeviceAllEpInterruptMask,
                clear: 0,
                set: ALL_IN0 | ALL_OUT0,
            },
        );
    }

    /// Sends data to the host over endpoint 0. The IN buffer and descriptors
    /// have to be prepared.
    pub fn expect_data_phase_in(&mut self, transfer_type: TableCase, out: &mut Vec<Action>)
        ensures
            *final(self) == old(self).in_state(USBState::DataStageIn),
            final(out)@ == old(out)@ + old(self).data_phase_actions(transfer_type),
    {
        self.state = USBState::DataStageIn;
        if let Some(in_descriptors) = self.ep0_in_descriptors {
            self.start_in(transfer_type, in_descriptors, out);
        }
    }

    /// Sets up endpoint 0 for a status phase with no data phase.
    pub fn expect_status_phase_in(&mut self, transfer_type: TableCase, out: &mut Vec<Action>)
        ensures
            *final(self) == old(self).in_state(USBState::NoDataStage),
            final(out)@ == old(out)@ + old(self).status_phase_actions(transfer_type),
    {
        self.state = USBState::NoDataStage;
        if let Some(in_descriptors) = self.ep0_in_descriptors {
            if let Some(addr) = self.ep0_in_buffers {
                // The address doesn't matter, since the length is zero.
                out.push(Action::SetAddr { slot: DmaSlot::Ep0In(0), addr });
            }
            out.push(
                Action::SetFlags {
                    slot: DmaSlot::Ep0In(0),
                    flags: with_bytes(DESC_HOST_READY | DESC_LAST | DESC_SHORT | DESC_IOC, 0),
                },
            );
            self.start_in(transfer_type, in_descriptors, out);
        }
    }

    /// The driver after the OUT descriptors have changed roles.
    pub open spec fn swapped(self) -> USB {
        if self.ep0_out_descriptors is Some {
            USB {
                last_ep0_out_idx: self.next_ep0_out_idx,
                next_ep0_out_idx: (1 - self.next_ep0_out_idx) as usize,
                ..self
            }
        } else {
            self
        }
    }

    /// What makes the other OUT descriptor receive.
    pub open spec fn swap_actions(self) -> Seq<Action> {
        match self.ep0_out_descriptors {
            Some(addr) => seq![
                Action::Write {
                    register: Register::OutDmaAddress(0),
                    value: (addr + 8 * (1 - self.next_ep0_out_idx)) as u32,
                },
            ],
            None => seq![],
        }
    }

    /// Swaps which OUT descriptor of endpoint 0 is set up to receive, so that a
    /// new packet can come in while the current one is processed.
    pub fn swap_ep0_out_descriptors(&mut self, out: &mut Vec<Action>)
        requires
            old(self).wf(),
        ensures
            final(self).wf(),
            *final(self) == old(self).swapped(),
            final(out)@ == old(out)@ + old(self).swap_actions(),
    {
        if let Some(addr) = self.ep0_out_descriptors {
            let mut noi: usize = self.next_ep0_out_idx;
            self.last_ep0_out_idx = noi;
            noi = (noi + 1) % EP0_OUT_BUFFER_COUNT;
            self.next_ep0_out_idx = noi;
            out.push(
                Action::Write {
                    register: Register::OutDmaAddress(0),
                    value: addr + DMA_DESCRIPTOR_SIZE * noi as u32,
                },
            );
        }
    }

    /// What puts the descriptors of endpoint 0 back to a clean state.
    pub open spec fn init_ep0_actions(self) -> Seq<Action> {
        let outs = match (self.ep0_out_descriptors, self.ep0_out_buffers) {
            (Some(descriptors), Some(buffers)) => clean_actions(
                |i: usize| DmaSlot::Ep0Out(i),
                buffers,
                2,
            ) + seq![
                Action::Write { register: Register::OutDmaAddress(0), value: descriptors },
            ],
            _ => seq![],
        };
        let ins = match (self.ep0_in_descriptors, self.ep0_in_buffers) {
            (Some(descriptors), Some(buffers)) => clean_actions(
                |i: usize| DmaSlot::Ep0In(i),
                buffers,
                4,
            ) + seq![
                Action::Write { register: Register::InDmaAddress(0), value: descriptors },
            ],
            _ => seq![],
        };
        outs + ins
    }

    /// The driver after its endpoint 0 descriptors were put back to a clean
    /// state.
    pub open spec fn with_clean_ep0(self) -> USB {
        if self.ep0_out_descriptors is Some && self.ep0_out_buffers is Some {
            USB { next_ep0_out_idx: 0, ..self }
        } else {
            self
        }
    }

    /// Initializes the descriptors of endpoint 0 IN and OUT, resetting them to a
    /// clean state.
    pub fn init_ep0_descriptors(&mut self, out: &mut Vec<Action>)
        requires
            old(self).wf(),
        ensures
            final(self).wf(),
            *final(self) == old(self).with_clean_ep0(),
            final(out)@ == old(out)@ + old(self).init_ep0_actions(),
    {
        if let Some(descriptors) = self.ep0_out_descriptors {
            if let Some(buffers) = self.ep0_out_buffers {
                let ghost start = out@;
                let ghost cleaned = clean_actions(|i: usize| DmaSlot::Ep0Out(i), buffers, 2);
                let mut i: usize = 0;
                while i < EP0_OUT_BUFFER_COUNT
                    invariant
                        i <= EP0_OUT_BUFFER_COUNT,
                        buffers + 128 <= 0x1_0000_0000,
                        cleaned == clean_actions(|i: usize| DmaSlot::Ep0Out(i), buffers, 2),
                        out@ == start + cleaned.take(2 * i),
                    decreases EP0_OUT_BUFFER_COUNT - i,
                {
                    out.push(
                        Action::SetFlags { slot: DmaSlot::Ep0Out(i), flags: DESC_HOST_BUSY },
                    );
                    out.push(
                        Action::SetAddr {
                            slot: DmaSlot::Ep0Out(i),
                            addr: buffers + 64 * i as u32,
                        },
                    );
                    assert(cleaned.take(2 * i + 2) =~= cleaned.take(2 * i).push(
                        cleaned[2 * i as int],
                    ).push(cleaned[2 * i + 1]));
                    i = i + 1;
                }
                assert(cleaned.take(2 * i) =~= cleaned);
                self.next_ep0_out_idx = 0;
                out.push(
                    Action::Write { register: Register::OutDmaAddress(0), value: descriptors },
                );
            }
        }
        if let Some(buffers) = self.ep0_in_buffers {
            if let Some(descriptors) = self.ep0_in_descriptors {
                let ghost start = out@;
                let ghost cleaned = clean_actions(|i: usize| DmaSlot::Ep0In(i), buffers, 4);
                let mut i: usize = 0;
                while i < EP0_IN_BUFFER_COUNT
                    invariant
                        i <= EP0_IN_BUFFER_COUNT,
                        buffers + 256 <= 0x1_0000_0000,
                        cleaned == clean_actions(|i: usize| DmaSlot::Ep0In(i), buffers, 4),
                        out@ == start + cleaned.take(2 * i),
                    decreases EP0_IN_BUFFER_COUNT - i,
                {
                    out.push(
                        Action::SetFlags { slot: DmaSlot::Ep0In(i), flags: DESC_HOST_BUSY },
                    );
                    out.push(
                        Action::SetAddr {
                            slot: DmaSlot::Ep0In(i),
                            addr: buffers + 64 * i as u32,
                        },
                    );
                    assert(cleaned.take(2 * i + 2) =~= cleaned.take(2 * i).push(
                        cleaned[2 * i as int],
                    ).push(cleaned[2 * i + 1]));
                    i = i + 1;
                }
                assert(cleaned.take(2 * i) =~= cleaned);
                out.push(
                    Action::Write { register: Register::InDmaAddress(0), value: descriptors },
                );
            }
        }
    }

    /// The driver after a USB reset.
    pub open spec fn after_reset(self) -> USB {
        self.with_clean_ep0().in_state(USBState::WaitingForSetupPacket)
    }

    /// What a USB reset does.
    pub open spec fn reset_actions(self) -> Seq<Action> {
        self.init_ep0_actions() + self.with_clean_ep0().expect_setup_actions()
    }

    /// Resets the device in response to a USB reset.
    pub fn usb_reset(&mut self, out: &mut Vec<Action>)
        requires
            old(self).wf(),
        ensures
            final(self).wf(),
            *final(self) == old(self).after_reset(),
            final(out)@ == old(out)@ + old(self).reset_actions(),
    {
        self.state = USBState::WaitingForSetupPacket;
        self.init_ep0_descriptors(out);
        self.expect_setup_packet(out);
    }
}

} // verus!
