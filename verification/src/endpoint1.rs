//! Endpoint 1: U2F frames to and from the client.
//!
//! What the DMA engine has written, the flags of a descriptor or the words of
//! the OUT buffer, is handed in by the caller.

use vstd::prelude::*;

use crate::action::{push_bytes, push_words, store_words, Action, Buffer, DmaSlot, Register};
use crate::bytes::{bytes_of, unpack_byte, words_of};
use crate::constants::{
    ALL_IN1, ALL_OUT1, DESC_DMA_DONE, DESC_HOST_BUSY, DESC_HOST_READY, DESC_IOC, DESC_LAST,
    DESC_STATUS_MASK, EPCTL_CNAK, EPCTL_ENABLE, EPCTL_INTERRUPT, EPCTL_TXFNUM_1, EPCTL_USBACTEP,
    IN_XFER_COMPLETE, OUT_XFER_COMPLETE, U2F_REPORT_SIZE,
};
use crate::endpoint0::{flags_with, with_bytes};
use crate::interrupt::any_set;
use crate::usb::{ReturnCode, USB};

verus! {

/// The flags of an endpoint 1 descriptor that is handed to the DMA engine with a
/// frame of 64 bytes.
pub open spec fn frame_flags() -> u32 {
    flags_with(DESC_LAST | DESC_HOST_READY | DESC_IOC, U2F_REPORT_SIZE)
}

/// What lets endpoint 1 IN go on.
pub open spec fn enable_tx_actions() -> Seq<Action> {
    seq![
        Action::SetFlags { slot: DmaSlot::Ep1In, flags: frame_flags() },
        Action::Modify {
            register: Register::InControl(1),
            clear: 0,
            set: EPCTL_ENABLE | EPCTL_CNAK,
        },
    ]
}

/// What lets endpoint 1 OUT go on.
pub open spec fn enable_rx_actions() -> Seq<Action> {
    seq![
        Action::SetFlags { slot: DmaSlot::Ep1Out, flags: frame_flags() },
        Action::Modify {
            register: Register::OutControl(1),
            clear: 0,
            set: EPCTL_ENABLE | EPCTL_CNAK,
        },
    ]
}

/// The control bits of endpoint 1 OUT: an active interrupt endpoint of 64-byte
/// packets, ready to receive.
pub open spec fn ep1_out_control() -> u32 {
    (EPCTL_ENABLE | EPCTL_CNAK | EPCTL_USBACTEP | EPCTL_INTERRUPT) | U2F_REPORT_SIZE as u32
}

/// The control bits of endpoint 1 IN: an active interrupt endpoint of 64-byte
/// packets, on transmit FIFO 1.
pub open spec fn ep1_in_control() -> u32 {
    (EPCTL_USBACTEP | EPCTL_INTERRUPT | EPCTL_TXFNUM_1) | U2F_REPORT_SIZE as u32
}

impl USB {
    /// Endpoint 1 OUT has its descriptor and its buffer.
    pub open spec fn has_ep1_out(self) -> bool {
        self.ep1_out_descriptor is Some && self.ep1_out_buffer is Some
    }

    /// Endpoint 1 IN has its descriptor and its buffer.
    pub open spec fn has_ep1_in(self) -> bool {
        self.ep1_in_descriptor is Some && self.ep1_in_buffer is Some
    }

    /// Whether a frame can be put, the IN descriptor's flags being `flags`: the
    /// DMA engine is done with the last one, or none was ever handed to it.
    pub open spec fn tx_ready(self, flags: u32) -> bool {
        &&& self.ep1_in_descriptor is Some
        &&& flags & DESC_STATUS_MASK == DESC_DMA_DONE || flags & DESC_STATUS_MASK == DESC_HOST_BUSY
    }

    /// Whether there is a frame to get, the OUT descriptor's flags being `flags`:
    /// the DMA engine has handed the descriptor back.
    pub open spec fn rx_ready(self, flags: u32) -> bool {
        self.ep1_out_descriptor is Some && flags & DESC_DMA_DONE == DESC_DMA_DONE
    }

    /// What sets up endpoint 1 for U2F.
    pub open spec fn setup_u2f_actions(self) -> Seq<Action> {
        (if self.has_ep1_out() {
            seq![
                Action::SetFlags { slot: DmaSlot::Ep1Out, flags: frame_flags() },
                Action::SetAddr { slot: DmaSlot::Ep1Out, addr: self.ep1_out_buffer->0 },
                Action::Write {
                    register: Register::OutDmaAddress(1),
                    value: self.ep1_out_descriptor->0,
                },
            ]
        } else {
            seq![]
        }) + (if self.has_ep1_in() {
            seq![
                Action::SetFlags {
                    slot: DmaSlot::Ep1In,
                    flags: DESC_LAST | DESC_HOST_BUSY | DESC_IOC,
                },
                Action::SetAddr { slot: DmaSlot::Ep1In, addr: self.ep1_in_buffer->0 },
                Action::Write {
                    register: Register::InDmaAddress(1),
                    value: self.ep1_in_descriptor->0,
                },
            ]
        } else {
            seq![]
        }) + (if self.has_ep1_out() {
            seq![Action::Write { register: Register::OutControl(1), value: ep1_out_control() }]
        } else {
            seq![]
        }) + (if self.has_ep1_in() {
            seq![Action::Write { register: Register::InControl(1), value: ep1_in_control() }]
        } else {
            seq![]
        }) + seq![
            Action::Modify {
                register: Register::DeviceAllEpInterruptMask,
                clear: 0,
                set: ALL_OUT1 | ALL_IN1,
            },
        ]
    }

    /// Sets the descriptors of endpoint 1 to a clean state and activates the
    /// endpoint. To be done after the host has set the address and the
    /// configuration of the device.
    pub fn setup_u2f_descriptors(&self, out: &mut Vec<Action>)
        ensures
            final(out)@ == old(out)@ + self.setup_u2f_actions(),
    {
        if let Some(descriptor) = self.ep1_out_descriptor {
            if let Some(buffer) = self.ep1_out_buffer {
                out.push(
                    Action::SetFlags {
                        slot: DmaSlot::Ep1Out,
                        flags: with_bytes(
                            DESC_LAST | DESC_HOST_READY | DESC_IOC,
                            U2F_REPORT_SIZE,
                        ),
                    },
                );
                out.push(Action::SetAddr { slot: DmaSlot::Ep1Out, addr: buffer });
                out.push(
                    Action::Write { register: Register::OutDmaAddress(1), value: descriptor },
                );
            }
        }
        if let Some(descriptor) = self.ep1_in_descriptor {
            if let Some(buffer) = self.ep1_in_buffer {
                out.push(
                    Action::SetFlags {
                        slot: DmaSlot::Ep1In,
                        flags: DESC_LAST | DESC_HOST_BUSY | DESC_IOC,
                    },
                );
                out.push(Action::SetAddr { slot: DmaSlot::Ep1In, addr: buffer });
                out.push(Action::Write { register: Register::InDmaAddress(1), value: descriptor });
            }
        }
        if self.ep1_out_descriptor.is_some() && self.ep1_out_buffer.is_some() {
            let control: u32 = EPCTL_ENABLE | EPCTL_CNAK | EPCTL_USBACTEP | EPCTL_INTERRUPT;
            out.push(
                Action::Write {
                    register: Register::OutControl(1),
                    value: control | U2F_REPORT_SIZE as u32,
                },
            );
        }
        if self.ep1_in_descriptor.is_some() && self.ep1_in_buffer.is_some() {
            let control: u32 = EPCTL_USBACTEP | EPCTL_INTERRUPT | EPCTL_TXFNUM_1;
            out.push(
                Action::Write {
                    register: Register::InControl(1),
                    value: control | U2F_REPORT_SIZE as u32,
                },
            );
        }
        out.push(
            Action::Modify {
                register: Register::DeviceAllEpInterruptMask,
                clear: 0,
                set: ALL_OUT1 | ALL_IN1,
            },
        );
    }

    /// The driver with a client to call back.
    pub open spec fn with_client(self) -> USB {
        USB { u2f_client: true, ..self }
    }

    /// From now on there is a client to call back.
    pub fn set_u2f_client(&mut self)
        ensures
            *final(self) == (USB { u2f_client: true, ..*old(self) }),
            *final(self) == old(self).with_client(),
    {
        self.u2f_client = true;
    }

    /// Whether endpoint 1 IN can take a frame, its descriptor's flags being
    /// `in_flags`.
    pub fn ep1_tx_fifo_is_ready(&self, in_flags: u32) -> (ready: bool)
        ensures
            ready == self.tx_ready(in_flags),
    {
        self.ep1_in_descriptor.is_some() && (in_flags & DESC_STATUS_MASK == DESC_DMA_DONE
            || in_flags & DESC_STATUS_MASK == DESC_HOST_BUSY)
    }

    /// Whether endpoint 1 OUT holds a frame, its descriptor's flags being
    /// `out_flags`.
    pub fn ep1_rx_fifo_is_ready(&self, out_flags: u32) -> (ready: bool)
        ensures
            ready == (self.ep1_out_descriptor is Some && out_flags & DESC_DMA_DONE
                == DESC_DMA_DONE),
            ready == self.rx_ready(out_flags),
    {
        self.ep1_out_descriptor.is_some() && out_flags & DESC_DMA_DONE == DESC_DMA_DONE
    }

    /// Hands the IN descriptor of endpoint 1 to the DMA engine.
    pub fn ep1_enable_tx(&self, out: &mut Vec<Action>)
        ensures
            final(out)@ == old(out)@ + (if self.ep1_in_descriptor is Some {
                enable_tx_actions()
            } else {
                seq![]
            }),
    {
        if self.ep1_in_descriptor.is_some() {
            out.push(
                Action::SetFlags {
                    slot: DmaSlot::Ep1In,
                    flags: with_bytes(DESC_LAST | DESC_HOST_READY | DESC_IOC, U2F_REPORT_SIZE),
                },
            );
            out.push(
                Action::Modify {
                    register: Register::InControl(1),
                    clear: 0,
                    set: EPCTL_ENABLE | EPCTL_CNAK,
                },
            );
        }
    }

    /// How handing over the OUT descriptor of endpoint 1 ends, and what it does.
    pub open spec fn enable_rx_result(self) -> (ReturnCode, Seq<Action>) {
        if self.ep1_out_descriptor is Some {
            (ReturnCode::SUCCESS, enable_rx_actions())
        } else {
            (ReturnCode::FAIL, seq![])
        }
    }

    /// Hands the OUT descriptor of endpoint 1 to the DMA engine.
    pub fn ep1_enable_rx(&self, out: &mut Vec<Action>) -> (code: ReturnCode)
        ensures
            code == (if self.ep1_out_descriptor is Some {
                ReturnCode::SUCCESS
            } else {
                ReturnCode::FAIL
            }),
            final(out)@ == old(out)@ + (if self.ep1_out_descriptor is Some {
                enable_rx_actions()
            } else {
                seq![]
            }),
            code == self.enable_rx_result().0,
            final(out)@ == old(out)@ + self.enable_rx_result().1,
    {
        if self.ep1_out_descriptor.is_some() {
            out.push(
                Action::SetFlags {
                    slot: DmaSlot::Ep1Out,
                    flags: with_bytes(DESC_LAST | DESC_HOST_READY | DESC_IOC, U2F_REPORT_SIZE),
                },
            );
            out.push(
                Action::Modify {
                    register: Register::OutControl(1),
                    clear: 0,
                    set: EPCTL_ENABLE | EPCTL_CNAK,
                },
            );
            ReturnCode::SUCCESS
        } else {
            ReturnCode::FAIL
        }
    }

    /// Makes endpoint 1 receive a frame. Succeeds whether or not the endpoint
    /// has a descriptor.
    pub fn enable_rx(&self, out: &mut Vec<Action>) -> (code: ReturnCode)
        ensures
            code == ReturnCode::SUCCESS,
            final(out)@ == old(out)@ + (if self.ep1_out_descriptor is Some {
                enable_rx_actions()
            } else {
                seq![]
            }),
            final(out)@ == old(out)@ + self.enable_rx_result().1,
    {
        self.ep1_enable_rx(out);
        ReturnCode::SUCCESS
    }

    /// There is nothing to respond on the interface.
    pub fn iface_respond(&self) -> (code: ReturnCode)
        ensures
            code == ReturnCode::FAIL,
    {
        ReturnCode::FAIL
    }

    /// Whether a frame can be put, the IN descriptor's flags being `in_flags`.
    pub fn transmit_ready(&self, in_flags: u32) -> (ready: bool)
        ensures
            ready == self.tx_ready(in_flags),
    {
        self.ep1_tx_fifo_is_ready(in_flags)
    }

    /// What sends the words of a frame.
    pub open spec fn transmit_actions(self, words: Seq<u32>) -> Seq<Action> {
        (if self.ep1_in_buffer is Some {
            store_words(Buffer::Ep1In, words)
        } else {
            seq![]
        }) + enable_tx_actions()
    }

    /// How putting a frame ends, and what it does, the IN descriptor's flags being
    /// `in_flags`.
    pub open spec fn put_frame_result(self, in_flags: u32, frame: Seq<u32>) -> (
        ReturnCode,
        Seq<Action>,
    ) {
        if self.tx_ready(in_flags) {
            (ReturnCode::SUCCESS, self.transmit_actions(frame))
        } else {
            (ReturnCode::EBUSY, seq![])
        }
    }

    /// How putting a slice ends, and what it does, the IN descriptor's flags being
    /// `in_flags`.
    pub open spec fn put_slice_result(self, in_flags: u32, slice: Seq<u8>) -> (
        ReturnCode,
        Seq<Action>,
    ) {
        if slice.len() > 64 {
            (ReturnCode::ESIZE, seq![])
        } else if !self.tx_ready(in_flags) {
            (ReturnCode::EBUSY, seq![])
        } else {
            (ReturnCode::SUCCESS, self.transmit_actions(words_of(slice)))
        }
    }

    /// What a frame holds after the received one was copied into it.
    pub open spec fn get_frame_result(self, hardware_buffer: Seq<u32>, frame: Seq<u32>) -> Seq<
        u32,
    > {
        if self.ep1_out_buffer is Some {
            hardware_buffer
        } else {
            frame
        }
    }

    /// How getting a slice ends, and what the slice holds after that.
    pub open spec fn get_slice_result(self, hardware_buffer: Seq<u32>, slice: Seq<u8>) -> (
        ReturnCode,
        Seq<u8>,
    ) {
        if slice.len() > 64 {
            (ReturnCode::ESIZE, slice)
        } else if self.ep1_out_buffer is Some {
            (ReturnCode::SUCCESS, bytes_of(hardware_buffer).take(slice.len() as int))
        } else {
            (ReturnCode::SUCCESS, slice)
        }
    }

    /// Sends a frame, unless the last one is still on its way. The IN
    /// descriptor's flags are `in_flags`.
    pub fn put_frame(&self, in_flags: u32, frame: &[u32; 16], out: &mut Vec<Action>) -> (code:
        ReturnCode)
        ensures
            code == (if self.tx_ready(in_flags) {
                ReturnCode::SUCCESS
            } else {
                ReturnCode::EBUSY
            }),
            final(out)@ == old(out)@ + (if self.tx_ready(in_flags) {
                self.transmit_actions(frame@)
            } else {
                seq![]
            }),
            code == self.put_frame_result(in_flags, frame@).0,
            final(out)@ == old(out)@ + self.put_frame_result(in_flags, frame@).1,
    {
        if !self.ep1_tx_fifo_is_ready(in_flags) {
            ReturnCode::EBUSY
        } else {
            if self.ep1_in_buffer.is_some() {
                push_words(Buffer::Ep1In, frame, out);
            }
            self.ep1_enable_tx(out);
            ReturnCode::SUCCESS
        }
    }

    /// Sends up to 64 bytes, unless the last frame is still on its way. What the
    /// bytes do not fill of the frame is filled up with zeros to a whole word,
    /// and after that keeps what was sent before.
    pub fn put_slice(&self, in_flags: u32, slice: &[u8], out: &mut Vec<Action>) -> (code:
        ReturnCode)
        ensures
            code == (if slice@.len() > 64 {
                ReturnCode::ESIZE
            } else if !self.tx_ready(in_flags) {
                ReturnCode::EBUSY
            } else {
                ReturnCode::SUCCESS
            }),
            final(out)@ == old(out)@ + (if slice@.len() <= 64 && self.tx_ready(in_flags) {
                self.transmit_actions(words_of(slice@))
            } else {
                seq![]
            }),
            code == self.put_slice_result(in_flags, slice@).0,
            final(out)@ == old(out)@ + self.put_slice_result(in_flags, slice@).1,
    {
        if slice.len() > 64 {
            ReturnCode::ESIZE
        } else if !self.ep1_tx_fifo_is_ready(in_flags) {
            ReturnCode::EBUSY
        } else {
            if self.ep1_in_buffer.is_some() {
                push_bytes(Buffer::Ep1In, slice, out);
            }
            self.ep1_enable_tx(out);
            ReturnCode::SUCCESS
        }
    }

    /// Copies the received frame, if endpoint 1 OUT has a buffer.
    pub fn get_frame(&self, hardware_buffer: &[u32; 16], frame: &mut [u32; 16])
        ensures
            final(frame)@ == (if self.ep1_out_buffer is Some {
                hardware_buffer@
            } else {
                old(frame)@
            }),
            final(frame)@ == self.get_frame_result(hardware_buffer@, old(frame)@),
    {
        if self.ep1_out_buffer.is_some() {
            let mut i: usize = 0;
            while i < 16
                invariant
                    i <= 16,
                    forall|k: int| 0 <= k < i ==> frame@[k] == hardware_buffer@[k],
                decreases 16 - i,
            {
                frame[i] = hardware_buffer[i];
                i = i + 1;
            }
            assert(frame@ =~= hardware_buffer@);
        }
    }

    /// Copies the first bytes of the received frame, if endpoint 1 OUT has a
    /// buffer.
    pub fn get_slice(&self, hardware_buffer: &[u32; 16], slice: &mut [u8]) -> (code: ReturnCode)
        ensures
            code == (if old(slice)@.len() > 64 {
                ReturnCode::ESIZE
            } else {
                ReturnCode::SUCCESS
            }),
            final(slice)@ == (if old(slice)@.len() <= 64 && self.ep1_out_buffer is Some {
                bytes_of(hardware_buffer@).take(old(slice)@.len() as int)
            } else {
                old(slice)@
            }),
            code == self.get_slice_result(hardware_buffer@, old(slice)@).0,
            final(slice)@ == self.get_slice_result(hardware_buffer@, old(slice)@).1,
    {
        let len: usize = slice.len();
        if len > 64 {
            ReturnCode::ESIZE
        } else {
            if self.ep1_out_buffer.is_some() {
                let mut i: usize = 0;
                while i < len
                    invariant
                        i <= len,
                        len == slice@.len(),
                        len <= 64,
                        forall|k: int|
                            0 <= k < i ==> slice@[k] == bytes_of(hardware_buffer@)[k],
                    decreases len - i,
                {
                    slice[i] = unpack_byte(hardware_buffer, i);
                    i = i + 1;
                }
                assert(slice@ =~= bytes_of(hardware_buffer@).take(len as int));
            }
            ReturnCode::SUCCESS
        }
    }

    /// What the interrupts of endpoint 1 call for.
    pub open spec fn ep1_actions(
        self,
        out_interrupt: bool,
        in_interrupt: bool,
        out_interrupts: u32,
        in_interrupts: u32,
    ) -> Seq<Action> {
        (if in_interrupt {
            seq![Action::Write { register: Register::InInterrupt(1), value: in_interrupts }]
        } else {
            seq![]
        }) + (if in_interrupt && any_set(in_interrupts, IN_XFER_COMPLETE) && self.u2f_client {
            seq![Action::FrameTransmitted]
        } else {
            seq![]
        }) + (if out_interrupt {
            seq![Action::Write { register: Register::OutInterrupt(1), value: out_interrupts }]
        } else {
            seq![]
        }) + (if out_interrupt && any_set(out_interrupts, OUT_XFER_COMPLETE) && self.u2f_client {
            seq![Action::FrameReceived]
        } else {
            seq![]
        })
    }

    /// Handles events of endpoint 1: clears the pending interrupts and calls the
    /// client back. `out_interrupts` and `in_interrupts` are the values of the
    /// endpoint's interrupt registers.
    pub fn handle_endpoint1_events(
        &self,
        out_interrupt: bool,
        in_interrupt: bool,
        out_interrupts: u32,
        in_interrupts: u32,
        out: &mut Vec<Action>,
    )
        ensures
            final(out)@ == old(out)@ + self.ep1_actions(
                out_interrupt,
                in_interrupt,
                out_interrupts,
                in_interrupts,
            ),
    {
        if in_interrupt {
            out.push(
                Action::Write { register: Register::InInterrupt(1), value: in_interrupts },
            );
            if in_interrupts & IN_XFER_COMPLETE != 0 && self.u2f_client {
                out.push(Action::FrameTransmitted);
            }
        }
        if out_interrupt {
            out.push(
                Action::Write { register: Register::OutInterrupt(1), value: out_interrupts },
            );
            if out_interrupts & OUT_XFER_COMPLETE != 0 && self.u2f_client {
                out.push(Action::FrameReceived);
            }
        }
    }
}

} // verus!
