use h1_usb::action::modify;
use h1_usb::interrupt::{InInterrupt, Interrupt, TableCase};

const XFER_COMPLETE: u32 = 1 << 0;
const SETUP: u32 = 1 << 3;
const STS_PHSE_RCVD: u32 = 1 << 5;

#[test]
fn rows_of_the_table() {
    assert_eq!(TableCase::decode_interrupt(XFER_COMPLETE), TableCase::A);
    assert_eq!(TableCase::decode_interrupt(SETUP), TableCase::B);
    assert_eq!(TableCase::decode_interrupt(SETUP | XFER_COMPLETE), TableCase::C);
    assert_eq!(TableCase::decode_interrupt(STS_PHSE_RCVD), TableCase::D);
    assert_eq!(TableCase::decode_interrupt(STS_PHSE_RCVD | XFER_COMPLETE), TableCase::E);
}

#[test]
fn other_bits_do_not_matter() {
    let others = !(XFER_COMPLETE | SETUP | STS_PHSE_RCVD);
    assert_eq!(TableCase::decode_interrupt(others | XFER_COMPLETE), TableCase::A);
    assert_eq!(TableCase::decode_interrupt(others | SETUP), TableCase::B);
    assert_eq!(TableCase::decode_interrupt(others | STS_PHSE_RCVD), TableCase::D);
}

#[test]
fn combinations_outside_the_table() {
    assert_eq!(TableCase::decode_interrupt(0), TableCase::D);
    assert_eq!(TableCase::decode_interrupt(0xffff_ffff), TableCase::C);
    assert_eq!(TableCase::decode_interrupt(SETUP | STS_PHSE_RCVD), TableCase::B);
}

#[test]
fn pending_core_interrupts() {
    assert_eq!(Interrupt::pending(0), vec![]);
    assert_eq!(
        Interrupt::pending(0x000c_3008),
        vec![
            Interrupt::SOF,
            Interrupt::Reset,
            Interrupt::EnumDone,
            Interrupt::InEndpoints,
            Interrupt::OutEndpoints,
        ]
    );
    assert_eq!(Interrupt::pending(0xffff_ffff).len(), 23);
    // Bits 5, 8, 9, 16, 24 to 27 and 29 stand for nothing.
    assert_eq!(Interrupt::pending(0x2f01_0320), vec![]);
    assert_eq!(Interrupt::ResumeWakeup.bit(), 0x8000_0000);
    assert_eq!(Interrupt::Reset.label(), "USB reset");
}

#[test]
fn pending_in_interrupts() {
    assert_eq!(
        InInterrupt::pending(0x0000_8003),
        vec![InInterrupt::XferComplete, InInterrupt::EPDisabled, InInterrupt::SetupRecvd]
    );
    assert_eq!(InInterrupt::pending(0xffff_ffff).len(), 15);
    assert_eq!(InInterrupt::pending(0xffff_0400), vec![]);
    assert_eq!(InInterrupt::TxFifoReady.bit(), 0x80);
    assert_eq!(InInterrupt::BabbleErr.label(), "Babble error");
}

#[test]
fn modify_clears_then_sets() {
    assert_eq!(modify(0x0000_ffff, 0x0000_00ff, 0x0001_0001), 0x0001_ff01);
    assert_eq!(modify(0, 0, 0xffff_ffff), 0xffff_ffff);
    assert_eq!(modify(0x0000_0001, 0x0000_0001, 0x0001_0000), 0x0001_0000);
}
