use h1_usb::action::{Action, Buffer, DmaSlot, Register};
use h1_usb::handler::Snapshot;
use h1_usb::usb::{DMADescriptor, ReturnCode, PHY, USB};

const HOST_READY: u32 = 0x0000_0000;
const DMA_BUSY: u32 = 0x4000_0000;
const DMA_DONE: u32 = 0x8000_0000;
const HOST_BUSY: u32 = 0xc000_0000;

fn driver() -> USB {
    let mut usb = USB::new();
    usb.init(
        0x100, 0x200, 0x300, 0x400, 0x500, 0x510, 0x600, 0x610, [0; 64], PHY::B, None, None, None,
        vec![],
    );
    usb
}

fn enable_tx() -> Vec<Action> {
    vec![
        Action::SetFlags { slot: DmaSlot::Ep1In, flags: 0x0a00_0040 },
        Action::Modify { register: Register::InControl(1), clear: 0, set: 0x8400_0000 },
    ]
}

#[test]
fn ready_to_transmit() {
    let usb = driver();
    assert!(usb.transmit_ready(DMA_DONE | 0x1234));
    assert!(usb.transmit_ready(HOST_BUSY));
    assert!(!usb.transmit_ready(HOST_READY | 0x0a00_0040));
    assert!(!usb.ep1_tx_fifo_is_ready(DMA_BUSY));
    assert!(!USB::new().transmit_ready(DMA_DONE));
}

#[test]
fn ready_to_read() {
    let usb = driver();
    assert!(usb.ep1_rx_fifo_is_ready(DMA_DONE));
    assert!(usb.ep1_rx_fifo_is_ready(HOST_BUSY));
    assert!(!usb.ep1_rx_fifo_is_ready(DMA_BUSY));
    assert!(!USB::new().ep1_rx_fifo_is_ready(DMA_DONE));
}

#[test]
fn put_frame_stores_all_words() {
    let usb = driver();
    let mut frame = [0u32; 16];
    for i in 0..16 {
        frame[i] = 0x0101_0101 * i as u32;
    }
    let mut out = vec![];
    assert_eq!(usb.put_frame(DMA_DONE, &frame, &mut out), ReturnCode::SUCCESS);
    let mut expected: Vec<Action> = (0..16)
        .map(|i| Action::StoreWord { buffer: Buffer::Ep1In, index: i, value: frame[i] })
        .collect();
    expected.extend(enable_tx());
    assert_eq!(out, expected);
}

#[test]
fn put_while_busy() {
    let usb = driver();
    let mut out = vec![];
    // The flags that a transmission leaves until the DMA engine changes them.
    assert_eq!(usb.put_frame(0x0a00_0040, &[0; 16], &mut out), ReturnCode::EBUSY);
    assert_eq!(usb.put_slice(0x0a00_0040, &[1], &mut out), ReturnCode::EBUSY);
    assert_eq!(out, vec![]);
    assert_eq!(USB::new().put_slice(DMA_DONE, &[1], &mut out), ReturnCode::EBUSY);
}

#[test]
fn put_slice_packs_bytes() {
    let usb = driver();
    let mut out = vec![];
    assert_eq!(usb.put_slice(HOST_BUSY, &[1, 2, 3, 4, 5], &mut out), ReturnCode::SUCCESS);
    let mut expected = vec![
        Action::StoreWord { buffer: Buffer::Ep1In, index: 0, value: 0x0403_0201 },
        Action::StoreWord { buffer: Buffer::Ep1In, index: 1, value: 0x0000_0005 },
    ];
    expected.extend(enable_tx());
    assert_eq!(out, expected);
    let mut out = vec![];
    assert_eq!(usb.put_slice(HOST_BUSY, &[], &mut out), ReturnCode::SUCCESS);
    assert_eq!(out, enable_tx());
}

#[test]
fn put_slice_too_large() {
    let usb = driver();
    let mut out = vec![];
    assert_eq!(usb.put_slice(DMA_DONE, &[0; 65], &mut out), ReturnCode::ESIZE);
    // The size is looked at first.
    assert_eq!(usb.put_slice(DMA_BUSY, &[0; 65], &mut out), ReturnCode::ESIZE);
    assert_eq!(out, vec![]);
    assert_eq!(usb.put_slice(DMA_DONE, &[7; 64], &mut out), ReturnCode::SUCCESS);
    assert_eq!(out.len(), 18);
}

#[test]
fn slice_comes_back() {
    let usb = driver();
    let slice: Vec<u8> = (0..63).map(|i| (i * 5 + 1) as u8).collect();
    let mut out = vec![];
    assert_eq!(usb.put_slice(DMA_DONE, &slice, &mut out), ReturnCode::SUCCESS);
    let mut words = [0xffff_ffffu32; 16];
    for action in &out {
        if let Action::StoreWord { index, value, .. } = *action {
            words[index] = value;
        }
    }
    let mut back = [0u8; 63];
    assert_eq!(usb.get_slice(&words, &mut back), ReturnCode::SUCCESS);
    assert_eq!(back.to_vec(), slice);
}

#[test]
fn frame_as_slice() {
    let usb = driver();
    let mut frame = [0u32; 16];
    for i in 0..16 {
        frame[i] = 0xf1e2_d3c4 - 0x0102_0304 * i as u32;
    }
    let bytes: Vec<u8> = frame.iter().flat_map(|w| w.to_le_bytes()).collect();
    for flags in [HOST_READY, DMA_BUSY, DMA_DONE, HOST_BUSY] {
        let mut whole = vec![];
        let mut sliced = vec![];
        let code = usb.put_frame(flags, &frame, &mut whole);
        assert_eq!(usb.put_slice(flags, &bytes, &mut sliced), code);
        assert_eq!(whole, sliced);
    }
}

#[test]
fn get_slice_and_frame() {
    let usb = driver();
    let mut words = [0u32; 16];
    words[0] = 0x0403_0201;
    words[15] = 0x8070_6050;
    let mut frame = [9u32; 16];
    usb.get_frame(&words, &mut frame);
    assert_eq!(frame, words);
    let mut bytes = [0u8; 64];
    assert_eq!(usb.get_slice(&words, &mut bytes), ReturnCode::SUCCESS);
    assert_eq!(bytes[..5], [1, 2, 3, 4, 0]);
    assert_eq!(bytes[60..], [0x50, 0x60, 0x70, 0x80]);
    let mut large = [3u8; 65];
    assert_eq!(usb.get_slice(&words, &mut large), ReturnCode::ESIZE);
    assert_eq!(large, [3u8; 65]);
}

#[test]
fn nothing_to_get_without_a_buffer() {
    let usb = USB::new();
    let mut frame = [9u32; 16];
    usb.get_frame(&[1; 16], &mut frame);
    assert_eq!(frame, [9; 16]);
    let mut bytes = [3u8; 4];
    assert_eq!(usb.get_slice(&[1; 16], &mut bytes), ReturnCode::SUCCESS);
    assert_eq!(bytes, [3; 4]);
}

#[test]
fn enabling_reception() {
    let mut out = vec![];
    assert_eq!(driver().enable_rx(&mut out), ReturnCode::SUCCESS);
    assert_eq!(
        out,
        vec![
            Action::SetFlags { slot: DmaSlot::Ep1Out, flags: 0x0a00_0040 },
            Action::Modify { register: Register::OutControl(1), clear: 0, set: 0x8400_0000 },
        ]
    );
    let mut out = vec![];
    assert_eq!(USB::new().ep1_enable_rx(&mut out), ReturnCode::FAIL);
    assert_eq!(USB::new().enable_rx(&mut out), ReturnCode::SUCCESS);
    assert_eq!(out, vec![]);
    assert_eq!(driver().iface_respond(), ReturnCode::FAIL);
}

#[test]
fn setting_up_endpoint_1() {
    let mut out = vec![];
    driver().setup_u2f_descriptors(&mut out);
    assert_eq!(
        out,
        vec![
            Action::SetFlags { slot: DmaSlot::Ep1Out, flags: 0x0a00_0040 },
            Action::SetAddr { slot: DmaSlot::Ep1Out, addr: 0x510 },
            Action::Write { register: Register::OutDmaAddress(1), value: 0x500 },
            Action::SetFlags { slot: DmaSlot::Ep1In, flags: 0xca00_0000 },
            Action::SetAddr { slot: DmaSlot::Ep1In, addr: 0x610 },
            Action::Write { register: Register::InDmaAddress(1), value: 0x600 },
            Action::Write { register: Register::OutControl(1), value: 0x840c_8040 },
            Action::Write { register: Register::InControl(1), value: 0x004c_8040 },
            Action::Modify {
                register: Register::DeviceAllEpInterruptMask,
                clear: 0,
                set: 0x0002_0002,
            },
        ]
    );
    // Endpoint 1 can take a frame at once.
    assert!(driver().transmit_ready(0xca00_0000));
}

fn snapshot(all: u32, out1_interrupt: u32, in1_interrupt: u32) -> Snapshot {
    Snapshot {
        interrupt_status: 0x000c_0000,
        interrupt_mask: 0,
        device_all_ep_interrupt: all,
        out0_interrupt: 0x20,
        in0_interrupt: 0,
        out1_interrupt,
        in1_interrupt,
        ep0_out_descriptors: [DMADescriptor { flags: 0, addr: 0 }; 2],
        ep0_out_buffers: [[0; 16]; 2],
    }
}

#[test]
fn client_is_called_back() {
    let mut usb = driver();
    let both = snapshot(0x0002_0002, 0x1, 0x3);
    assert_eq!(
        usb.handle_interrupt(&both),
        vec![
            Action::Write { register: Register::InInterrupt(1), value: 3 },
            Action::Write { register: Register::OutInterrupt(1), value: 1 },
            Action::Write { register: Register::InterruptStatus, value: 0x000c_0000 },
        ]
    );
    usb.set_u2f_client();
    assert_eq!(
        usb.handle_interrupt(&both),
        vec![
            Action::Write { register: Register::InInterrupt(1), value: 3 },
            Action::FrameTransmitted,
            Action::Write { register: Register::OutInterrupt(1), value: 1 },
            Action::FrameReceived,
            Action::Write { register: Register::InterruptStatus, value: 0x000c_0000 },
        ]
    );
    // Not complete: nothing to tell.
    assert_eq!(
        usb.handle_interrupt(&snapshot(0x0002_0000, 0x2, 0x1)),
        vec![
            Action::Write { register: Register::OutInterrupt(1), value: 2 },
            Action::Write { register: Register::InterruptStatus, value: 0x000c_0000 },
        ]
    );
}

#[test]
fn endpoint_0_goes_first() {
    let mut usb = driver();
    usb.set_u2f_client();
    assert_eq!(
        usb.handle_interrupt(&snapshot(0x0003_0002, 0x1, 0x1)),
        vec![
            Action::Write { register: Register::OutInterrupt(0), value: 0x20 },
            Action::Write { register: Register::InterruptStatus, value: 0x000c_0000 },
        ]
    );
}
