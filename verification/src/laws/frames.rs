//! Frames over endpoint 1, as its client and the DMA engine see them.

use vstd::prelude::*;

use crate::action::{Action, Buffer, DmaSlot, Register};
use crate::bank::{law_run_store_words, Bank};
use crate::bytes::{law_bytes_shifted, law_words_shifted, words_of};
use crate::laws::lemma_run_concat;
use crate::laws::values::{lemma_modified, lemma_values};
use crate::usb::{ReturnCode, USB};

verus! {

// Sending.

/// Whether endpoint 1 can take a frame depends on the two top bits of the flags of
/// its IN descriptor alone: the DMA engine is done (2), or the processor owns the
/// descriptor (3). Without a descriptor it never can.
pub proof fn law_transmit_ready(usb: USB, flags: u32)
    ensures
        usb.tx_ready(flags) == (usb.ep1_in_descriptor is Some && (flags >> 30 == 2 || flags >> 30
            == 3)),
{
    lemma_status_bits(flags);
}

proof fn lemma_status_bits(flags: u32)
    ensures
        (flags & 0xc000_0000 == 0x8000_0000) == (flags >> 30 == 2),
        (flags & 0xc000_0000 == 0xc000_0000) == (flags >> 30 == 3),
        flags >> 30 <= 3,
{
    assert((flags & 0xc000_0000 == 0x8000_0000) == (flags >> 30 == 2) && (flags & 0xc000_0000
        == 0xc000_0000) == (flags >> 30 == 3) && flags >> 30 <= 3) by (bit_vector);
}

/// A frame is refused exactly while one is on its way, and then nothing is done.
/// Else its words are what the IN buffer holds, the descriptor is handed over with
/// 64 bytes, last of its list and to be reported, and the endpoint is enabled and
/// its NAK cleared. Nothing else changes.
pub proof fn law_put_frame(usb: USB, bank: Bank, in_flags: u32, frame: Seq<u32>)
    requires
        frame.len() == 16,
        bank.wf(),
    ensures
        ({
            let result = usb.put_frame_result(in_flags, frame);
            let after = bank.run(result.1);
            if usb.ep1_in_descriptor is Some && in_flags >> 30 >= 2 {
                &&& result.0 == ReturnCode::SUCCESS
                &&& after == (Bank {
                    ep1_in: if usb.ep1_in_buffer is Some {
                        frame
                    } else {
                        bank.ep1_in
                    },
                    ..bank
                }).with_flags(DmaSlot::Ep1In, 0x0a00_0040).with_register(
                    Register::InControl(1),
                    bank.registers[Register::InControl(1)] | 0x8400_0000,
                )
            } else {
                &&& result.0 == ReturnCode::EBUSY
                &&& result.1 == Seq::<Action>::empty()
            }
        }),
{
    law_transmit_ready(usb, in_flags);
    lemma_status_bits(in_flags);
    lemma_transmit(usb, bank, frame);
    assert(frame + bank.ep1_in.skip(16) =~= frame);
}

proof fn lemma_transmit(usb: USB, bank: Bank, words: Seq<u32>)
    requires
        words.len() <= 16,
        bank.wf(),
    ensures
        bank.run(usb.transmit_actions(words)) == (Bank {
            ep1_in: if usb.ep1_in_buffer is Some {
                words + bank.ep1_in.skip(words.len() as int)
            } else {
                bank.ep1_in
            },
            ..bank
        }).with_flags(DmaSlot::Ep1In, 0x0a00_0040).with_register(
            Register::InControl(1),
            bank.registers[Register::InControl(1)] | 0x8400_0000,
        ),
{
    broadcast use lemma_run_concat;

    law_run_store_words(bank, Buffer::Ep1In, words);
    lemma_values();
    lemma_modified(bank.registers[Register::InControl(1)], 0, 0x8400_0000);
    reveal_with_fuel(Bank::run_first, 3);
}

/// A slice of more than 64 bytes is refused for its size; any other goes the way of
/// a frame. The host gets the bytes of the slice from the start on, the least
/// significant of each word first; the rest of the last word is zero, and the words
/// after it are what they were.
pub proof fn law_put_slice(usb: USB, bank: Bank, in_flags: u32, slice: Seq<u8>)
    requires
        bank.wf(),
    ensures
        ({
            let result = usb.put_slice_result(in_flags, slice);
            let after = bank.run(result.1);
            if slice.len() > 64 {
                &&& result.0 == ReturnCode::ESIZE
                &&& result.1 == Seq::<Action>::empty()
            } else if usb.ep1_in_descriptor is Some && in_flags >> 30 >= 2 {
                &&& result.0 == ReturnCode::SUCCESS
                &&& after == (Bank { ep1_in: after.ep1_in, ..bank }).with_flags(
                    DmaSlot::Ep1In,
                    0x0a00_0040,
                ).with_register(
                    Register::InControl(1),
                    bank.registers[Register::InControl(1)] | 0x8400_0000,
                )
                &&& after.ep1_in.len() == 16
                &&& usb.ep1_in_buffer is None ==> after.ep1_in == bank.ep1_in
                &&& usb.ep1_in_buffer is Some ==> {
                    &&& forall|i: int|
                        0 <= i < slice.len() ==> (#[trigger] slice[i]) == (after.ep1_in[i / 4] >> ((
                        8 * (i % 4)) as u32)) & 0xff
                    &&& forall|i: int, k: int|
                        0 <= i < 16 && 0 <= k < 4 && slice.len() <= 4 * i + k && 4 * i
                            < slice.len() ==> #[trigger] (after.ep1_in[i] >> ((8 * k) as u32))
                            & 0xff == 0
                    &&& forall|i: int|
                        0 <= i < 16 && slice.len() <= 4 * i ==> #[trigger] after.ep1_in[i]
                            == bank.ep1_in[i]
                }
            } else {
                &&& result.0 == ReturnCode::EBUSY
                &&& result.1 == Seq::<Action>::empty()
            }
        }),
{
    law_transmit_ready(usb, in_flags);
    lemma_status_bits(in_flags);
    if slice.len() <= 64 {
        let words = words_of(slice);
        lemma_transmit(usb, bank, words);
        let sent = words + bank.ep1_in.skip(words.len() as int);
        assert forall|i: int| 0 <= i < slice.len() implies (#[trigger] slice[i]) == (sent[i / 4]
            >> ((8 * (i % 4)) as u32)) & 0xff by {
            law_words_shifted(slice, i / 4, i % 4);
        }
        assert forall|i: int, k: int|
            0 <= i < 16 && 0 <= k < 4 && slice.len() <= 4 * i + k && 4 * i
                < slice.len() implies #[trigger] (sent[i] >> ((8 * k) as u32)) & 0xff == 0 by {
            law_words_shifted(slice, i, k);
        }
    }
}

/// The last thing that sending does is to enable the endpoint, right after the
/// descriptor was handed over: all words are stored before.
pub proof fn law_enabled_after_stored(usb: USB, words: Seq<u32>)
    ensures
        ({
            let actions = usb.transmit_actions(words);
            &&& actions.last() == (Action::Modify {
                register: Register::InControl(1),
                clear: 0,
                set: 0x8400_0000,
            })
            &&& actions.drop_last().last() == (Action::SetFlags {
                slot: DmaSlot::Ep1In,
                flags: 0x0a00_0040,
            })
            &&& forall|i: int|
                0 <= i < actions.len() - 2 ==> (#[trigger] actions[i]) is StoreWord
        }),
{
    lemma_values();
}

/// After a frame was put, another one is refused for as long as the DMA engine has
/// not handed the descriptor back, and taken as soon as it has, whatever else the
/// engine leaves in the flags.
pub proof fn law_put_done_put(
    usb: USB,
    bank: Bank,
    in_flags: u32,
    frame: Seq<u32>,
    done: u32,
    next: Seq<u32>,
)
    requires
        usb.put_frame_result(in_flags, frame).0 == ReturnCode::SUCCESS,
        frame.len() == 16,
        bank.wf(),
    ensures
        ({
            let sent = bank.run(usb.put_frame_result(in_flags, frame).1).flags[DmaSlot::Ep1In];
            &&& usb.put_frame_result(sent, next).0 == ReturnCode::EBUSY
            &&& usb.put_frame_result(sent | 0x4000_0000, next).0 == ReturnCode::EBUSY
            &&& usb.put_frame_result((sent & 0x3fff_ffff) | 0x8000_0000, next).0
                == ReturnCode::SUCCESS
        }),
        done >> 30 == 2 ==> usb.put_frame_result(done, next).0 == ReturnCode::SUCCESS,
        done >> 30 < 2 ==> usb.put_frame_result(done, next).0 == ReturnCode::EBUSY,
{
    law_put_frame(usb, bank, in_flags, frame);
    law_transmit_ready(usb, in_flags);
    assert(0x0a00_0040u32 >> 30 == 0 && (0x0a00_0040u32 | 0x4000_0000) >> 30 == 1 && ((
    0x0a00_0040u32 & 0x3fff_ffff) | 0x8000_0000) >> 30 == 2) by (bit_vector);
    law_transmit_ready(usb, 0x0a00_0040);
    law_transmit_ready(usb, 0x0a00_0040u32 | 0x4000_0000);
    law_transmit_ready(usb, (0x0a00_0040u32 & 0x3fff_ffff) | 0x8000_0000);
    law_transmit_ready(usb, done);
}

// Receiving.

/// There is a frame to get exactly if the top bit of the flags of the OUT
/// descriptor is set.
pub proof fn law_receive_ready(usb: USB, flags: u32)
    ensures
        usb.rx_ready(flags) == (usb.ep1_out_descriptor is Some && flags >= 0x8000_0000),
{
    assert((flags & 0x8000_0000 == 0x8000_0000) == (flags >= 0x8000_0000)) by (bit_vector);
}

/// Making endpoint 1 receive hands its OUT descriptor over for 64 bytes, last of its
/// list and to be reported, and enables the endpoint with its NAK cleared. Nothing
/// else changes. It fails exactly if there is no descriptor, and then does nothing.
pub proof fn law_enable_rx(usb: USB, bank: Bank)
    ensures
        ({
            let result = usb.enable_rx_result();
            if usb.ep1_out_descriptor is Some {
                &&& result.0 == ReturnCode::SUCCESS
                &&& bank.run(result.1) == bank.with_flags(
                    DmaSlot::Ep1Out,
                    0x0a00_0040,
                ).with_register(
                    Register::OutControl(1),
                    bank.registers[Register::OutControl(1)] | 0x8400_0000,
                )
                &&& result.1[0] is SetFlags
            } else {
                &&& result.0 == ReturnCode::FAIL
                &&& result.1 == Seq::<Action>::empty()
            }
        }),
{
    lemma_values();
    lemma_modified(bank.registers[Register::OutControl(1)], 0, 0x8400_0000);
    reveal_with_fuel(Bank::run_first, 3);
}

/// A frame that is got is the one in the OUT buffer. A slice that is got holds its
/// first bytes, the least significant of each word first; one of more than 64 bytes
/// is refused and keeps what it holds.
pub proof fn law_get(usb: USB, hardware_buffer: Seq<u32>, frame: Seq<u32>, slice: Seq<u8>)
    requires
        hardware_buffer.len() == 16,
        frame.len() == 16,
        usb.ep1_out_buffer is Some,
    ensures
        forall|i: int|
            0 <= i < 16 ==> #[trigger] usb.get_frame_result(hardware_buffer, frame)[i]
                == hardware_buffer[i],
        usb.get_frame_result(hardware_buffer, frame).len() == 16,
        ({
            let result = usb.get_slice_result(hardware_buffer, slice);
            if slice.len() > 64 {
                result.0 == ReturnCode::ESIZE && result.1 == slice
            } else {
                &&& result.0 == ReturnCode::SUCCESS
                &&& result.1.len() == slice.len()
                &&& forall|i: int|
                    0 <= i < slice.len() ==> (#[trigger] result.1[i]) == (hardware_buffer[i / 4]
                        >> ((8 * (i % 4)) as u32)) & 0xff
            }
        }),
{
    let result = usb.get_slice_result(hardware_buffer, slice);
    if slice.len() <= 64 {
        assert forall|i: int| 0 <= i < slice.len() implies (#[trigger] result.1[i]) == (
        hardware_buffer[i / 4] >> ((8 * (i % 4)) as u32)) & 0xff by {
            law_bytes_shifted(hardware_buffer, i);
        }
    }
}

/// Without an OUT buffer there is nothing to get: frame and slice keep what they
/// hold.
pub proof fn law_get_nothing(usb: USB, hardware_buffer: Seq<u32>, frame: Seq<u32>, slice: Seq<u8>)
    requires
        usb.ep1_out_buffer is None,
    ensures
        usb.get_frame_result(hardware_buffer, frame) == frame,
        usb.get_slice_result(hardware_buffer, slice).1 == slice,
        (usb.get_slice_result(hardware_buffer, slice).0 == ReturnCode::ESIZE) == (slice.len() > 64),
{
}

/// What one driver puts as a slice, another one whose OUT buffer receives the frame
/// gets as a slice.
pub proof fn law_slice_crosses(
    sender: USB,
    receiver: USB,
    bank: Bank,
    in_flags: u32,
    slice: Seq<u8>,
    room: Seq<u8>,
)
    requires
        sender.put_slice_result(in_flags, slice).0 == ReturnCode::SUCCESS,
        sender.ep1_in_buffer is Some,
        receiver.ep1_out_buffer is Some,
        bank.wf(),
        room.len() == slice.len(),
    ensures
        ({
            let sent = bank.run(sender.put_slice_result(in_flags, slice).1).ep1_in;
            receiver.get_slice_result(sent, room) == (ReturnCode::SUCCESS, slice)
        }),
{
    law_put_slice(sender, bank, in_flags, slice);
    let sent = bank.run(sender.put_slice_result(in_flags, slice).1).ep1_in;
    law_get(receiver, sent, sent, room);
    let got = receiver.get_slice_result(sent, room).1;
    assert forall|i: int| 0 <= i < slice.len() implies got[i] == slice[i] by {
        assert(slice[i] == (sent[i / 4] >> ((8 * (i % 4)) as u32)) & 0xff);
    }
    assert(got =~= slice);
}

// Setting up.

/// Setting up endpoint 1 hands its OUT descriptor over for 64 bytes and keeps its IN
/// descriptor with the processor, points each to its buffer and the hardware to
/// each, activates both directions as interrupt endpoints of 64-byte packets, IN on
/// transmit FIFO 1 and OUT enabled, and unmasks both interrupts. Nothing else
/// changes.
pub proof fn law_setup_u2f(usb: USB, bank: Bank)
    requires
        usb.ep1_out_descriptor is Some,
        usb.ep1_out_buffer is Some,
        usb.ep1_in_descriptor is Some,
        usb.ep1_in_buffer is Some,
    ensures
        bank.run(usb.setup_u2f_actions()) == bank.with_flags(
            DmaSlot::Ep1Out,
            0x0a00_0040,
        ).with_addr(DmaSlot::Ep1Out, usb.ep1_out_buffer->0).with_register(
            Register::OutDmaAddress(1),
            usb.ep1_out_descriptor->0,
        ).with_flags(DmaSlot::Ep1In, 0xca00_0000).with_addr(
            DmaSlot::Ep1In,
            usb.ep1_in_buffer->0,
        ).with_register(Register::InDmaAddress(1), usb.ep1_in_descriptor->0).with_register(
            Register::OutControl(1),
            0x840c_8040,
        ).with_register(Register::InControl(1), 0x004c_8040).with_register(
            Register::DeviceAllEpInterruptMask,
            bank.registers[Register::DeviceAllEpInterruptMask] | 0x0002_0002,
        ),
{
    broadcast use lemma_run_concat;

    lemma_values();
    lemma_modified(bank.registers[Register::DeviceAllEpInterruptMask], 0, 0x0002_0002);
    reveal_with_fuel(Bank::run_first, 4);
}

/// A direction of endpoint 1 that lacks its descriptor or its buffer is not set up;
/// the interrupts are unmasked all the same.
pub proof fn law_setup_u2f_partly(usb: USB, bank: Bank)
    ensures
        ({
            let mask = Register::DeviceAllEpInterruptMask;
            let old = bank.registers;
            let after = bank.run(usb.setup_u2f_actions());
            let new = after.registers;
            &&& new[mask] == old[mask] | 0x0002_0002
            &&& usb.ep1_out_descriptor is None || usb.ep1_out_buffer is None ==> {
                &&& after.flags[DmaSlot::Ep1Out] == bank.flags[DmaSlot::Ep1Out]
                &&& after.addrs[DmaSlot::Ep1Out] == bank.addrs[DmaSlot::Ep1Out]
                &&& new[Register::OutDmaAddress(1)] == old[Register::OutDmaAddress(1)]
                &&& new[Register::OutControl(1)] == old[Register::OutControl(1)]
            }
            &&& usb.ep1_in_descriptor is None || usb.ep1_in_buffer is None ==> {
                &&& after.flags[DmaSlot::Ep1In] == bank.flags[DmaSlot::Ep1In]
                &&& after.addrs[DmaSlot::Ep1In] == bank.addrs[DmaSlot::Ep1In]
                &&& new[Register::InDmaAddress(1)] == old[Register::InDmaAddress(1)]
                &&& new[Register::InControl(1)] == old[Register::InControl(1)]
            }
        }),
{
    broadcast use lemma_run_concat;

    lemma_values();
    lemma_modified(bank.registers[Register::DeviceAllEpInterruptMask], 0, 0x0002_0002);
    reveal_with_fuel(Bank::run_first, 4);
}

} // verus!
