//! What the driver asks the hardware to do.
//!
//! The driver never touches the controller itself. Each of its operations
//! yields a list of actions, to be carried out in order by whoever owns the
//! registers and the memory that the controller's DMA engine reads.

use vstd::prelude::*;

use crate::bytes::{pack_word, words_of};

verus! {

/// A register of the USB controller.
#[derive(Copy, Clone, PartialEq, Eq, Structural, Debug)]
pub enum Register {
    Gpio,
    Configuration,
    AhbConfig,
    Reset,
    InterruptStatus,
    InterruptMask,
    ReceiveFifoSize,
    TransmitFifoSize,
    DeviceInEpTxFifoSize(usize),
    DeviceConfig,
    DeviceControl,
    DeviceInEpInterruptMask,
    DeviceOutEpInterruptMask,
    DeviceAllEpInterruptMask,
    InControl(usize),
    InInterrupt(usize),
    InDmaAddress(usize),
    OutControl(usize),
    OutInterrupt(usize),
    OutDmaAddress(usize),
}

/// A descriptor in the memory that the DMA engine reads and writes.
#[derive(Copy, Clone, PartialEq, Eq, Structural, Debug)]
pub enum DmaSlot {
    Ep0Out(usize),
    Ep0In(usize),
    Ep1Out,
    Ep1In,
}

/// A buffer that the DMA engine sends to the host.
#[derive(Copy, Clone, PartialEq, Eq, Structural, Debug)]
pub enum Buffer {
    Ep0In,
    Ep1In,
}

/// A clock that the controller needs.
#[derive(Copy, Clone, PartialEq, Eq, Structural, Debug)]
pub enum PeripheralClock {
    Usb0,
    Usb0TimerHs,
}

/// One thing to do to the outside world.
#[derive(Copy, Clone, PartialEq, Eq, Structural, Debug)]
pub enum Action {
    /// Write `value` to `register`.
    Write { register: Register, value: u32 },
    /// Read `register` and write back what [`modify`] makes of its value.
    Modify { register: Register, clear: u32, set: u32 },
    /// Read `register` until no bit of `mask` is set in it.
    WaitClear { register: Register, mask: u32 },
    /// Read the reset register until a new [`SoftReset`](crate::init::SoftReset)
    /// is done waiting.
    WaitSoftReset,
    /// Store `flags` in the flag word of a DMA descriptor.
    SetFlags { slot: DmaSlot, flags: u32 },
    /// Store `addr` in the address word of a DMA descriptor.
    SetAddr { slot: DmaSlot, addr: u32 },
    /// Store `value` in word `index` of a buffer.
    StoreWord { buffer: Buffer, index: usize, value: u32 },
    /// Switch a clock on.
    EnableClock { clock: PeripheralClock },
    /// Execute `nops` instructions that do nothing.
    Delay { nops: u32 },
    /// Tell the U2F client that its frame was sent.
    FrameTransmitted,
    /// Tell the U2F client that a frame has arrived.
    FrameReceived,
}

/// The value that a [`Action::Modify`] writes to a register that holds `value`.
pub open spec fn modified(value: u32, clear: u32, set: u32) -> u32 {
    (value & !clear) | set
}

/// Clears the bits of `clear` in `value` and then sets those of `set`.
pub fn modify(value: u32, clear: u32, set: u32) -> (r: u32)
    ensures
        r == modified(value, clear, set),
{
    (value & !clear) | set
}

/// The actions that store `words` at the start of a buffer.
pub open spec fn store_words(buffer: Buffer, words: Seq<u32>) -> Seq<Action> {
    Seq::new(
        words.len(),
        |i: int| Action::StoreWord { buffer, index: i as usize, value: words[i] },
    )
}

/// Stores `words` at the start of a buffer.
pub fn push_words(buffer: Buffer, words: &[u32], out: &mut Vec<Action>)
    ensures
        final(out)@ == old(out)@ + store_words(buffer, words@),
{
    let ghost start = out@;
    let len: usize = words.len();
    let mut i: usize = 0;
    while i < len
        invariant
            i <= len,
            len == words@.len(),
            out@ == start + store_words(buffer, words@).take(i as int),
        decreases len - i,
    {
        out.push(Action::StoreWord { buffer, index: i, value: words[i] });
        i = i + 1;
        assert(store_words(buffer, words@).take(i as int) =~= store_words(buffer, words@).take(
            i - 1,
        ).push(store_words(buffer, words@)[i - 1]));
    }
    assert(store_words(buffer, words@).take(i as int) =~= store_words(buffer, words@));
}

/// Stores `bytes`, packed into words, at the start of a buffer. The rest of the
/// last word becomes zero, and the words after it keep what they hold.
pub fn push_bytes(buffer: Buffer, bytes: &[u8], out: &mut Vec<Action>)
    ensures
        final(out)@ == old(out)@ + store_words(buffer, words_of(bytes@)),
{
    let ghost start = out@;
    let ghost words = words_of(bytes@);
    let len: usize = bytes.len();
    let count: usize = if len == 0 { 0 } else { (len - 1) / 4 + 1 };
    let mut i: usize = 0;
    while i < count
        invariant
            i <= count,
            count == words.len(),
            words == words_of(bytes@),
            out@ == start + store_words(buffer, words).take(i as int),
        decreases count - i,
    {
        out.push(Action::StoreWord { buffer, index: i, value: pack_word(bytes, i) });
        i = i + 1;
        assert(store_words(buffer, words).take(i as int) =~= store_words(buffer, words).take(
            i - 1,
        ).push(store_words(buffer, words)[i - 1]));
    }
    assert(store_words(buffer, words).take(i as int) =~= store_words(buffer, words));
}

} // verus!
