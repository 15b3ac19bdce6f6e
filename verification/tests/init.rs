use h1_usb::action::{Action, PeripheralClock, Register};
use h1_usb::descriptor::StringDescriptor;
use h1_usb::endpoint0::{flush_rx_fifo, flush_tx_fifo};
use h1_usb::init::{setup_data_fifos, SoftReset};
use h1_usb::usb::{USBState, PHY, USB};

fn init(usb: &mut USB, phy: PHY) -> Vec<Action> {
    usb.init(
        0x100,
        0x200,
        0x300,
        0x400,
        0x500,
        0x510,
        0x600,
        0x610,
        [0xaa; 64],
        phy,
        Some(0xef),
        Some(0x18d1),
        None,
        vec![StringDescriptor { b_string: vec![0x0409] }],
    )
}

#[test]
fn a_new_driver_is_a_bad_device() {
    let usb = USB::new();
    assert_eq!(usb.vendor_id, 0x0011);
    assert_eq!(usb.product_id, 0x7788);
    assert_eq!(usb.device_class, 0);
    assert_eq!(usb.state, USBState::WaitingForSetupPacket);
    assert_eq!(usb.get_configuration_total_length(), 0);
    assert!(usb.configuration_descriptor.is_none());
}

#[test]
fn init_takes_the_parameters() {
    let mut usb = USB::new();
    init(&mut usb, PHY::A);
    assert_eq!(usb.ep0_out_descriptors, Some(0x100));
    assert_eq!(usb.ep0_out_buffers, Some(0x200));
    assert_eq!(usb.ep0_in_descriptors, Some(0x300));
    assert_eq!(usb.ep0_in_buffers, Some(0x400));
    assert_eq!(usb.ep1_out_descriptor, Some(0x500));
    assert_eq!(usb.ep1_out_buffer, Some(0x510));
    assert_eq!(usb.ep1_in_descriptor, Some(0x600));
    assert_eq!(usb.ep1_in_buffer, Some(0x610));
    assert_eq!(usb.device_class, 0xef);
    assert_eq!(usb.vendor_id, 0x18d1);
    // Not given: the dummy stays.
    assert_eq!(usb.product_id, 0x7788);
    assert_eq!(usb.strings.unwrap().len(), 1);
}

#[test]
fn init_generates_the_configuration_descriptor() {
    let mut usb = USB::new();
    init(&mut usb, PHY::A);
    assert_eq!(usb.get_configuration_total_length(), 41);
    let bytes = usb.configuration_descriptor.unwrap();
    assert_eq!(bytes[..9], [9, 2, 41, 0, 1, 1, 3, 0x80, 50]);
    assert_eq!(bytes[9..18], [9, 4, 0, 0, 2, 3, 0, 0, 6]);
    assert_eq!(bytes[18..27], [9, 0x21, 0, 1, 0, 1, 0x22, 34, 0]);
    assert_eq!(bytes[27..34], [7, 5, 0x01, 3, 64, 0, 2]);
    assert_eq!(bytes[34..41], [7, 5, 0x81, 3, 64, 0, 2]);
    assert_eq!(bytes[41..], [0xaa; 23]);
}

#[test]
fn no_configuration_descriptor_without_a_buffer() {
    let mut usb = USB::new();
    usb.generate_full_configuration_descriptor();
    assert!(usb.configuration_descriptor.is_none());
    assert_eq!(usb.get_configuration_total_length(), 0);
}

#[test]
fn init_brings_up_the_controller() {
    let mut usb = USB::new();
    let actions = init(&mut usb, PHY::A);
    assert_eq!(
        actions[..11],
        [
            Action::EnableClock { clock: PeripheralClock::Usb0 },
            Action::EnableClock { clock: PeripheralClock::Usb0TimerHs },
            Action::Write { register: Register::InterruptMask, value: 0 },
            Action::Write { register: Register::DeviceAllEpInterruptMask, value: 0 },
            Action::Write { register: Register::DeviceInEpInterruptMask, value: 0 },
            Action::Write { register: Register::DeviceOutEpInterruptMask, value: 0 },
            Action::Write { register: Register::Gpio, value: 0x8040_0000 },
            Action::Write { register: Register::Configuration, value: 0x3847 },
            Action::Write { register: Register::Reset, value: 1 },
            Action::WaitSoftReset,
            Action::Write { register: Register::Configuration, value: 0x3847 },
        ]
    );
    assert_eq!(
        actions[11..16],
        [
            Action::Write { register: Register::AhbConfig, value: 0xa1 },
            Action::Modify { register: Register::DeviceControl, clear: 0, set: 0x2 },
            Action::Modify { register: Register::DeviceConfig, clear: 0, set: 0x0080_0003 },
            Action::Write { register: Register::ReceiveFifoSize, value: 512 },
            Action::Write { register: Register::TransmitFifoSize, value: 0x0020_0200 },
        ]
    );
    // 15 FIFO sizes, two flushes of two actions, 32 interrupt registers.
    let n = 16 + 15 + 4;
    assert_eq!(
        actions[n],
        Action::Write { register: Register::OutInterrupt(0), value: 0xffff_ffff }
    );
    assert_eq!(
        actions[n + 31],
        Action::Write { register: Register::InInterrupt(15), value: 0xffff_ffff }
    );
    assert_eq!(
        actions[n + 32..],
        [
            Action::Write { register: Register::InterruptStatus, value: 0xffff_ffff },
            Action::Write { register: Register::DeviceOutEpInterruptMask, value: 0xb },
            Action::Write { register: Register::DeviceInEpInterruptMask, value: 0x3 },
            Action::Write { register: Register::InterruptMask, value: 0x000c_3cc8 },
            Action::Modify { register: Register::DeviceControl, clear: 0, set: 0x800 },
            Action::Delay { nops: 10000 },
            Action::Modify { register: Register::DeviceControl, clear: 0x800, set: 0 },
            Action::Modify { register: Register::DeviceControl, clear: 0, set: 0x500 },
            Action::Modify { register: Register::DeviceControl, clear: 0x2, set: 0 },
        ]
    );
}

#[test]
fn device_control_after_init() {
    for (left, expected) in [(0, 0x500), (0xffff_ffff, 0xffff_f7fd), (0x0000_0802, 0x500)] {
        let mut control: u32 = left;
        for action in init(&mut USB::new(), PHY::A) {
            match action {
                Action::Write { register: Register::DeviceControl, value } => control = value,
                Action::Modify { register: Register::DeviceControl, clear, set } => {
                    control = (control & !clear) | set
                }
                _ => {}
            }
        }
        assert_eq!(control, expected);
    }
}

#[test]
fn the_other_phy() {
    let actions = init(&mut USB::new(), PHY::B);
    assert!(actions.contains(&Action::Write { register: Register::Gpio, value: 0x8050_0000 }));
}

#[test]
fn data_fifos_follow_each_other() {
    let mut out = vec![];
    setup_data_fifos(&mut out);
    assert_eq!(out.len(), 2 + 15 + 4);
    for i in 0..15 {
        assert_eq!(
            out[2 + i],
            Action::Write {
                register: Register::DeviceInEpTxFifoSize(i),
                value: (32 << 16) + 512 + 32 * i as u32,
            }
        );
    }
    assert_eq!(
        out[17..],
        [
            Action::Write { register: Register::Reset, value: 0x420 },
            Action::WaitClear { register: Register::Reset, mask: 0x20 },
            Action::Write { register: Register::Reset, value: 0x10 },
            Action::WaitClear { register: Register::Reset, mask: 0x10 },
        ]
    );
}

#[test]
fn flushing_fifos() {
    let cases: [(u8, u32); 6] =
        [(0, 0x20), (1, 0x60), (15, 0x3e0), (16, 0x420), (17, 0x420), (255, 0x420)];
    for (fifo, value) in cases {
        let mut out = vec![];
        flush_tx_fifo(fifo, &mut out);
        assert_eq!(
            out,
            vec![
                Action::Write { register: Register::Reset, value },
                Action::WaitClear { register: Register::Reset, mask: 0x20 },
            ]
        );
    }
    let mut out = vec![];
    flush_rx_fifo(&mut out);
    assert_eq!(out[0], Action::Write { register: Register::Reset, value: 0x10 });
}

#[test]
fn soft_reset_that_succeeds() {
    let mut wait = SoftReset::new();
    assert!(wait.poll(0x1));
    assert!(wait.poll(0x8000_0001));
    assert!(wait.poll(0x8000_0000));
    assert_eq!(wait, SoftReset::Idling(10000));
    assert!(!wait.poll(0x8000_0000));
    assert_eq!(wait, SoftReset::Done);
    assert!(!wait.poll(0x1));
}

#[test]
fn soft_reset_waits_for_the_idle_flag() {
    let mut wait = SoftReset::new();
    assert!(wait.poll(0x0));
    for _ in 0..3 {
        assert!(wait.poll(0x7fff_ffff));
    }
    assert_eq!(wait, SoftReset::Idling(9997));
    assert!(!wait.poll(0x8000_0000));
    assert_eq!(wait, SoftReset::Done);
}

#[test]
fn soft_reset_that_takes_too_long() {
    let mut wait = SoftReset::new();
    let mut reads = 1;
    while wait.poll(0x1) {
        reads += 1;
    }
    assert_eq!(reads, 10001);
}

#[test]
fn soft_reset_at_the_last_moment() {
    let mut wait = SoftReset::new();
    for _ in 0..10000 {
        assert!(wait.poll(0x1));
    }
    assert_eq!(wait, SoftReset::Resetting(0));
    assert!(wait.poll(0x0));
    assert_eq!(wait, SoftReset::Idling(10000));
    assert!(wait.poll(0x0));
    assert!(!wait.poll(0x8000_0000));
}

#[test]
fn soft_reset_that_never_gets_idle() {
    let mut wait = SoftReset::new();
    for _ in 0..10000 {
        assert!(wait.poll(0x1));
    }
    // The reset flag clears at the last moment, and the idle flag never comes.
    let mut reads = 10001;
    while wait.poll(0x0) {
        reads += 1;
    }
    assert_eq!(reads, 20002);
}
