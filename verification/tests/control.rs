use std::collections::HashMap;

use h1_usb::action::{Action, Buffer, DmaSlot, Register};
use h1_usb::descriptor::StringDescriptor;
use h1_usb::handler::{Ep0Event, Snapshot};
use h1_usb::interrupt::TableCase;
use h1_usb::usb::{DMADescriptor, USBState, PHY, USB};

const OUT_DESCRIPTORS: u32 = 0x1_0000;
const OUT_BUFFERS: u32 = 0x1_0100;
const IN_DESCRIPTORS: u32 = 0x1_0200;
const IN_BUFFER: u32 = 0x1_0300;
const MASK: Register = Register::DeviceAllEpInterruptMask;
const ENABLE: u32 = 0x8000_0000;
const CNAK: u32 = 0x0400_0000;
const STALL: u32 = 0x0020_0000;

/// What the actions leave behind.
struct Machine {
    registers: HashMap<String, u32>,
    flags: HashMap<String, u32>,
    addrs: HashMap<String, u32>,
    ep0_in: Vec<u32>,
}

impl Machine {
    fn new() -> Machine {
        Machine {
            registers: HashMap::new(),
            flags: HashMap::new(),
            addrs: HashMap::new(),
            ep0_in: vec![0xdead_beef; 64],
        }
    }

    fn register(&self, register: Register) -> u32 {
        *self.registers.get(&format!("{:?}", register)).unwrap_or(&0)
    }

    fn set_register(&mut self, register: Register, value: u32) {
        self.registers.insert(format!("{:?}", register), value);
    }

    fn flags(&self, slot: DmaSlot) -> u32 {
        self.flags[&format!("{:?}", slot)]
    }

    fn addr(&self, slot: DmaSlot) -> u32 {
        self.addrs[&format!("{:?}", slot)]
    }

    fn run(&mut self, actions: &[Action]) {
        for action in actions {
            match *action {
                Action::Write { register, value } => self.set_register(register, value),
                Action::Modify { register, clear, set } => {
                    let value = self.register(register);
                    self.set_register(register, (value & !clear) | set);
                }
                Action::SetFlags { slot, flags } => {
                    self.flags.insert(format!("{:?}", slot), flags);
                }
                Action::SetAddr { slot, addr } => {
                    self.addrs.insert(format!("{:?}", slot), addr);
                }
                Action::StoreWord { buffer, index, value } => {
                    assert_eq!(buffer, Buffer::Ep0In);
                    self.ep0_in[index] = value;
                }
                _ => {}
            }
        }
    }

    /// The bytes that endpoint 0 sends.
    fn outgoing(&self) -> Vec<u8> {
        let count = (self.flags(DmaSlot::Ep0In(0)) & 0xffff) as usize;
        let bytes: Vec<u8> = self.ep0_in.iter().flat_map(|w| w.to_le_bytes()).collect();
        bytes[..count].to_vec()
    }
}

fn strings() -> Vec<StringDescriptor> {
    vec![
        StringDescriptor { b_string: vec![0x0409] },
        StringDescriptor { b_string: "Vendor".encode_utf16().collect() },
        StringDescriptor { b_string: "Board".encode_utf16().collect() },
        StringDescriptor { b_string: "Platform".encode_utf16().collect() },
        StringDescriptor { b_string: "Shell".encode_utf16().collect() },
        StringDescriptor { b_string: vec![] },
        StringDescriptor { b_string: "U2F".encode_utf16().collect() },
    ]
}

fn driver() -> USB {
    let mut usb = USB::new();
    usb.init(
        OUT_DESCRIPTORS,
        OUT_BUFFERS,
        IN_DESCRIPTORS,
        IN_BUFFER,
        0x1_0400,
        0x1_0410,
        0x1_0450,
        0x1_0460,
        [0xee; 64],
        PHY::A,
        None,
        Some(0x18d1),
        Some(0x5026),
        strings(),
    );
    usb
}

fn quiet() -> Snapshot {
    Snapshot {
        interrupt_status: 0,
        interrupt_mask: 0,
        device_all_ep_interrupt: 0,
        out0_interrupt: 0,
        in0_interrupt: 0,
        out1_interrupt: 0,
        in1_interrupt: 0,
        ep0_out_descriptors: [DMADescriptor { flags: 0, addr: 0 }; 2],
        ep0_out_buffers: [[0; 16]; 2],
    }
}

/// The snapshot when a SETUP packet has come into the descriptor that is set up.
fn setup(usb: &USB, out0_interrupt: u32, packet: [u8; 8]) -> Snapshot {
    let mut s = quiet();
    let next = usb.next_ep0_out_idx;
    s.interrupt_status = 0x0008_0000;
    s.device_all_ep_interrupt = 0x0001_0000;
    s.out0_interrupt = out0_interrupt;
    s.ep0_out_descriptors[next].flags = 0x8100_0008;
    for i in 0..2 {
        s.ep0_out_buffers[next][i] = u32::from_le_bytes([
            packet[4 * i],
            packet[4 * i + 1],
            packet[4 * i + 2],
            packet[4 * i + 3],
        ]);
    }
    s
}

/// Has the driver handle a SETUP packet; the machine shows the outcome.
fn handle(usb: &mut USB, packet: [u8; 8]) -> Machine {
    let snapshot = setup(usb, 0x1, packet);
    assert!(usb.accepts_interrupt(&snapshot));
    let mut machine = Machine::new();
    machine.run(&usb.handle_interrupt(&snapshot));
    machine
}

fn refused(usb: &USB, packet: [u8; 8]) -> bool {
    !usb.accepts_interrupt(&setup(usb, 0x1, packet))
}

#[test]
fn usb_reset_prepares_for_setup() {
    let mut usb = driver();
    usb.next_ep0_out_idx = 1;
    usb.state = USBState::DataStageIn;
    let mut s = quiet();
    s.interrupt_status = 0x1000;
    let mut m = Machine::new();
    m.set_register(MASK, 0x0003_0003);
    m.run(&usb.handle_interrupt(&s));
    assert_eq!(usb.state, USBState::WaitingForSetupPacket);
    assert_eq!(usb.next_ep0_out_idx, 0);
    assert_eq!(m.register(Register::OutDmaAddress(0)), OUT_DESCRIPTORS);
    assert_eq!(m.register(Register::InDmaAddress(0)), IN_DESCRIPTORS);
    assert_eq!(m.flags(DmaSlot::Ep0Out(0)), 0x0a00_0040);
    assert_eq!(m.flags(DmaSlot::Ep0Out(1)), 0xc000_0000);
    assert_eq!(m.addr(DmaSlot::Ep0Out(1)), OUT_BUFFERS + 64);
    for i in 0..4 {
        assert_eq!(m.flags(DmaSlot::Ep0In(i)), 0xc000_0000);
        assert_eq!(m.addr(DmaSlot::Ep0In(i)), IN_BUFFER + 64 * i as u32);
    }
    // IN0 masked, OUT0 unmasked, endpoint 1 left alone.
    assert_eq!(m.register(MASK), 0x0003_0002);
    assert_eq!(m.register(Register::OutControl(0)), ENABLE | CNAK);
    assert_eq!(m.register(Register::InterruptStatus), 0x1000);
}

#[test]
fn device_descriptor_is_sent() {
    let mut usb = driver();
    let m = handle(&mut usb, [0x80, 6, 0, 1, 0, 0, 64, 0]);
    assert_eq!(usb.state, USBState::DataStageIn);
    assert_eq!(
        m.outgoing(),
        vec![18, 1, 0x00, 0x02, 0, 0, 0, 64, 0xd1, 0x18, 0x26, 0x50, 0x00, 0x01, 1, 2, 0, 1]
    );
    assert_eq!(m.flags(DmaSlot::Ep0In(0)), 0x0e00_0012);
    assert_eq!(m.register(Register::InDmaAddress(0)), IN_DESCRIPTORS);
    assert_eq!(m.register(Register::InControl(0)), ENABLE);
    assert_eq!(m.register(Register::OutControl(0)), ENABLE);
    assert_eq!(m.register(MASK), 0x0001_0001);
    // The fifth word is filled up, the sixth is not touched.
    assert_eq!(m.ep0_in[4], 0x0000_0100);
    assert_eq!(m.ep0_in[5], 0xdead_beef);
}

#[test]
fn case_c_clears_the_nak() {
    let mut usb = driver();
    let snapshot = setup(&usb, 0x9, [0x80, 6, 0, 1, 0, 0, 64, 0]);
    let mut m = Machine::new();
    m.run(&usb.handle_interrupt(&snapshot));
    assert_eq!(m.register(Register::InControl(0)), ENABLE | CNAK);
    assert_eq!(m.register(Register::OutControl(0)), ENABLE | CNAK);
}

#[test]
fn reply_is_cut_off_at_the_requested_length() {
    let mut usb = driver();
    let m = handle(&mut usb, [0x80, 6, 0, 1, 0, 0, 8, 0]);
    assert_eq!(m.outgoing(), vec![18, 1, 0x00, 0x02, 0, 0, 0, 64]);
    let m = handle(&mut usb, [0x80, 6, 0, 1, 0, 0, 0, 0]);
    assert_eq!(m.outgoing(), vec![]);
}

#[test]
fn configuration_descriptor_is_sent() {
    let mut usb = driver();
    let m = handle(&mut usb, [0x80, 6, 0, 2, 0, 0, 0xff, 0]);
    assert_eq!(
        m.outgoing(),
        vec![
            9, 2, 41, 0, 1, 1, 3, 0x80, 50, //
            9, 4, 0, 0, 2, 3, 0, 0, 6, //
            9, 0x21, 0, 1, 0, 1, 0x22, 34, 0, //
            7, 5, 0x01, 3, 64, 0, 2, //
            7, 5, 0x81, 3, 64, 0, 2,
        ]
    );
    // All of the buffer is stored, with what follows the descriptor.
    assert_eq!(m.ep0_in[15], 0xeeee_eeee);
    assert_eq!(m.ep0_in[16], 0xdead_beef);
    usb.set_configuration_total_length(9);
    assert_eq!(usb.get_configuration_total_length(), 9);
    let m = handle(&mut usb, [0x80, 6, 0, 2, 0, 0, 0xff, 0]);
    assert_eq!(m.outgoing(), vec![9, 2, 41, 0, 1, 1, 3, 0x80, 50]);
}

#[test]
fn interface_descriptor_is_sent() {
    let mut usb = driver();
    let m = handle(&mut usb, [0x80, 6, 0, 4, 0, 0, 64, 0]);
    assert_eq!(m.outgoing(), vec![9, 4, 0, 0, 2, 3, 0, 0, 6]);
}

#[test]
fn string_descriptors_are_sent() {
    let mut usb = driver();
    let m = handle(&mut usb, [0x80, 6, 0, 3, 0, 0, 0xff, 0]);
    assert_eq!(m.outgoing(), vec![4, 3, 0x09, 0x04]);
    let m = handle(&mut usb, [0x80, 6, 6, 3, 0, 0, 0xff, 0]);
    assert_eq!(m.outgoing(), vec![8, 3, b'U', 0, b'2', 0, b'F', 0]);
    assert!(refused(&usb, [0x80, 6, 7, 3, 0, 0, 0xff, 0]));
}

#[test]
fn unknown_descriptors_stall() {
    for kind in [0u8, 5, 6, 7, 0x21, 0x22, 0xff] {
        let mut usb = driver();
        usb.state = USBState::NoDataStage;
        let m = handle(&mut usb, [0x80, 6, 0, kind, 0, 0, 64, 0]);
        assert_eq!(usb.state, USBState::WaitingForSetupPacket);
        assert_eq!(m.register(Register::InControl(0)), ENABLE | STALL);
        assert_eq!(m.register(Register::OutControl(0)), ENABLE | STALL);
        assert_eq!(m.register(MASK), 0x0001_0000);
        assert_eq!(m.flags(DmaSlot::Ep0Out(1)), 0x0a00_0040);
    }
}

#[test]
fn configuration_is_kept() {
    let mut usb = driver();
    let m = handle(&mut usb, [0x80, 8, 0, 0, 0, 0, 1, 0]);
    assert_eq!(m.outgoing(), vec![0]);
    let m = handle(&mut usb, [0x00, 9, 0x34, 0x12, 0, 0, 0, 0]);
    assert_eq!(usb.state, USBState::NoDataStage);
    assert_eq!(m.flags(DmaSlot::Ep0In(0)), 0x0e00_0000);
    assert_eq!(m.addr(DmaSlot::Ep0In(0)), IN_BUFFER);
    let m = handle(&mut usb, [0x80, 8, 0, 0, 0, 0, 1, 0]);
    assert_eq!(m.outgoing(), vec![0x34]);
}

#[test]
fn configuration_outlasts_other_interrupts() {
    let mut usb = driver();
    handle(&mut usb, [0x00, 9, 7, 0, 0, 0, 0, 0]);
    handle(&mut usb, [0x80, 6, 0, 1, 0, 0, 64, 0]);
    let mut reset = quiet();
    reset.interrupt_status = 0x1000;
    usb.handle_interrupt(&reset);
    handle(&mut usb, [0x00, 5, 9, 0, 0, 0, 0, 0]);
    handle(&mut usb, [0x80, 6, 0, 6, 0, 0, 64, 0]);
    let mut endpoint1 = quiet();
    endpoint1.interrupt_status = 0x000c_0000;
    endpoint1.device_all_ep_interrupt = 0x0002_0002;
    endpoint1.out1_interrupt = 0x1;
    endpoint1.in1_interrupt = 0x1;
    usb.handle_interrupt(&endpoint1);
    let m = handle(&mut usb, [0x80, 8, 0, 0, 0, 0, 1, 0]);
    assert_eq!(m.outgoing(), vec![7]);
    // Another order replaces it.
    handle(&mut usb, [0x00, 9, 1, 0, 0, 0, 0, 0]);
    let m = handle(&mut usb, [0x80, 8, 0, 0, 0, 0, 1, 0]);
    assert_eq!(m.outgoing(), vec![1]);
}

#[test]
fn interrupt_status_is_written_once() {
    let mut usb = driver();
    let mut snapshots = vec![quiet()];
    snapshots.push(setup(&usb, 0x1, [0x80, 6, 0, 1, 0, 0, 64, 0]));
    let mut reset = quiet();
    reset.interrupt_status = 0x1000;
    snapshots.push(reset);
    for snapshot in snapshots {
        let mut actions = usb.handle_interrupt(&snapshot);
        let status = Register::InterruptStatus;
        let value = snapshot.interrupt_status;
        assert_eq!(actions.pop(), Some(Action::Write { register: status, value }));
        for action in actions {
            match action {
                Action::Write { register, .. } => assert_ne!(register, status),
                Action::Modify { register, .. } => assert_ne!(register, status),
                _ => {}
            }
        }
    }
}

#[test]
fn reset_twice_is_reset_once() {
    let mut usb = driver();
    let mut reset = quiet();
    reset.interrupt_status = 0x1000;
    let mut m = Machine::new();
    let first = usb.handle_interrupt(&reset);
    m.run(&first);
    let once = (m.registers.clone(), m.flags.clone(), m.addrs.clone());
    let second = usb.handle_interrupt(&reset);
    assert_eq!(first, second);
    m.run(&second);
    assert_eq!(once, (m.registers, m.flags, m.addrs));
}

#[test]
fn stall_leaves_other_endpoints_alone() {
    let mut usb = driver();
    let snapshot = setup(&usb, 0x1, [0x80, 6, 0, 6, 0, 0, 64, 0]);
    let mut m = Machine::new();
    m.set_register(MASK, 0xfffe_5a5b);
    m.run(&usb.handle_interrupt(&snapshot));
    assert_eq!(m.register(MASK), 0xffff_5a5a);
}

#[test]
fn device_status_is_sent() {
    let mut usb = driver();
    let m = handle(&mut usb, [0x80, 0, 0, 0, 0, 0, 2, 0]);
    assert_eq!(usb.state, USBState::DataStageIn);
    assert_eq!(m.outgoing(), vec![0, 0]);
    assert_eq!(m.flags(DmaSlot::Ep0In(0)), 0x0e00_0002);
    assert_eq!(m.ep0_in[0], 0);
    assert_eq!(m.ep0_in[1], 0xdead_beef);
    assert_eq!(m.register(Register::InDmaAddress(0)), IN_DESCRIPTORS);
    // As any reply, it is cut off at the requested length.
    let m = handle(&mut usb, [0x80, 0, 0, 0, 0, 0, 1, 0]);
    assert_eq!(m.outgoing(), vec![0]);
}

#[test]
fn address_is_set() {
    let mut usb = driver();
    let snapshot = setup(&usb, 0x1, [0x00, 5, 0xd5, 0, 0, 0, 0, 0]);
    let mut m = Machine::new();
    m.set_register(Register::DeviceConfig, 0x0080_0ff3);
    m.run(&usb.handle_interrupt(&snapshot));
    assert_eq!(usb.state, USBState::NoDataStage);
    assert_eq!(m.register(Register::DeviceConfig), 0x0080_0d53);
    // Endpoint 1 is activated with it.
    assert_eq!(m.register(MASK), 0x0003_0003);
    assert_eq!(m.register(Register::OutControl(1)), 0x840c_8040);
    assert_eq!(m.register(Register::InControl(1)), 0x004c_8040);
    assert_eq!(m.flags(DmaSlot::Ep1Out), 0x0a00_0040);
    assert_eq!(m.flags(DmaSlot::Ep1In), 0xca00_0000);
    assert!(usb.transmit_ready(m.flags(DmaSlot::Ep1In)));
    assert_eq!(m.flags(DmaSlot::Ep0In(0)), 0x0e00_0000);
}

#[test]
fn report_descriptor_is_sent() {
    let mut usb = driver();
    let m = handle(&mut usb, [0x81, 6, 0, 0x22, 0, 0, 34, 0]);
    assert_eq!(m.outgoing().len(), 34);
    assert_eq!(m.outgoing()[..4], [0x06, 0xd0, 0xf1, 0x09]);
    assert_eq!(m.ep0_in[8], 0x0000_c002);
    assert!(refused(&usb, [0x81, 6, 0, 0x22, 0, 0, 35, 0]));
    assert!(refused(&usb, [0x81, 6, 0, 0x21, 0, 0, 34, 0]));
    assert!(refused(&usb, [0x81, 0, 0, 0x22, 0, 0, 34, 0]));
}

#[test]
fn set_idle_stalls() {
    let mut usb = driver();
    let m = handle(&mut usb, [0x21, 10, 0, 0, 0, 0, 0, 0]);
    assert_eq!(usb.state, USBState::WaitingForSetupPacket);
    assert_eq!(m.register(Register::InControl(0)), ENABLE | STALL);
}

#[test]
fn fatal_requests() {
    let usb = driver();
    // GET_INTERFACE of the device; a host-to-device request with data;
    // GET_STATUS without data; SET_INTERFACE of the device.
    assert!(refused(&usb, [0x80, 10, 0, 0, 0, 0, 1, 0]));
    assert!(refused(&usb, [0x00, 9, 1, 0, 0, 0, 1, 0]));
    assert!(refused(&usb, [0x00, 0, 0, 0, 0, 0, 0, 0]));
    assert!(refused(&usb, [0x00, 11, 0, 0, 0, 0, 0, 0]));
    // Requests to the interface: SET_INTERFACE, GET_REPORT, SET_REPORT.
    assert!(refused(&usb, [0x01, 11, 0, 0, 0, 0, 0, 0]));
    assert!(refused(&usb, [0xa1, 1, 0, 0, 0, 0, 1, 0]));
    assert!(refused(&usb, [0x21, 9, 0, 0, 0, 0, 0, 0]));
}

#[test]
fn other_recipients_are_ignored() {
    // A standard request to an endpoint, a vendor request, a class request to
    // the device.
    for packet in [
        [0x02, 1, 0, 0, 1, 0, 0, 0],
        [0xc0, 1, 0, 0, 0, 0, 4, 0],
        [0x20, 1, 0, 0, 0, 0, 0, 0],
    ] {
        let mut usb = driver();
        let snapshot = setup(&usb, 0x1, packet);
        assert!(usb.accepts_interrupt(&snapshot));
        let actions = usb.handle_interrupt(&snapshot);
        assert_eq!(usb.state, USBState::WaitingForSetupPacket);
        assert_eq!(
            actions,
            vec![
                Action::Write { register: Register::OutInterrupt(0), value: 1 },
                Action::Write { register: Register::OutDmaAddress(0), value: OUT_DESCRIPTORS + 8 },
                Action::Write { register: Register::InterruptStatus, value: 0x0008_0000 },
            ]
        );
    }
}

#[test]
fn out_descriptors_alternate() {
    let mut usb = driver();
    for round in 0..4 {
        let next = usb.next_ep0_out_idx;
        assert_eq!(next, round % 2);
        let m = handle(&mut usb, [0x80, 6, 0, 1, 0, 0, 64, 0]);
        assert_eq!(usb.last_ep0_out_idx, next);
        assert_eq!(usb.next_ep0_out_idx, 1 - next);
        assert_eq!(
            m.register(Register::OutDmaAddress(0)),
            OUT_DESCRIPTORS + 8 * usb.next_ep0_out_idx as u32
        );
        assert_eq!(m.flags(DmaSlot::Ep0Out(1 - next)), 0x0a00_0040);
    }
}

#[test]
fn packet_that_is_not_setup() {
    let mut usb = driver();
    let mut s = setup(&usb, 0x1, [0; 8]);
    s.ep0_out_descriptors[0].flags = 0x8000_0000;
    // Fatal while a SETUP packet is waited for.
    assert!(!usb.accepts_interrupt(&s));
    // In the other stages it is the end of the transfer.
    for state in [USBState::DataStageIn, USBState::NoDataStage] {
        usb.next_ep0_out_idx = 0;
        usb.state = state;
        assert!(usb.accepts_interrupt(&s));
        let mut m = Machine::new();
        m.run(&usb.handle_interrupt(&s));
        assert_eq!(usb.state, USBState::WaitingForSetupPacket);
        assert_eq!(m.flags(DmaSlot::Ep0Out(1)), 0x0a00_0040);
        assert_eq!(m.register(Register::OutControl(0)), ENABLE | CNAK);
    }
}

#[test]
fn setup_phase_done() {
    for state in [USBState::DataStageIn, USBState::NoDataStage] {
        let mut usb = driver();
        usb.state = state;
        let actions = usb.handle_interrupt(&setup(&usb_copy(state), 0x8, [0; 8]));
        assert_eq!(usb.state, state);
        assert_eq!(
            actions,
            vec![
                Action::Write { register: Register::OutInterrupt(0), value: 8 },
                Action::Write { register: Register::InControl(0), value: ENABLE | CNAK },
                Action::Write { register: Register::OutControl(0), value: ENABLE | CNAK },
                Action::Write { register: Register::InterruptStatus, value: 0x0008_0000 },
            ]
        );
    }
    let mut usb = driver();
    let m = handle_case(&mut usb, 0x8);
    assert_eq!(m.register(Register::InControl(0)), ENABLE | STALL);
}

fn usb_copy(state: USBState) -> USB {
    let mut usb = driver();
    usb.state = state;
    usb
}

fn handle_case(usb: &mut USB, out0_interrupt: u32) -> Machine {
    let snapshot = setup(usb, out0_interrupt, [0; 8]);
    let mut m = Machine::new();
    m.run(&usb.handle_interrupt(&snapshot));
    m
}

#[test]
fn status_phase_received() {
    let mut usb = usb_copy(USBState::NoDataStage);
    handle_case(&mut usb, 0x20);
    assert_eq!(usb.state, USBState::WaitingForSetupPacket);
    let mut usb = usb_copy(USBState::DataStageIn);
    handle_case(&mut usb, 0x20);
    assert_eq!(usb.state, USBState::DataStageIn);
}

#[test]
fn completed_in_transfer_reenables_in() {
    for state in [USBState::DataStageIn, USBState::NoDataStage] {
        let mut usb = usb_copy(state);
        let mut s = quiet();
        s.interrupt_status = 0x0004_0000;
        s.device_all_ep_interrupt = 0x1;
        s.in0_interrupt = 0x41;
        let actions = usb.handle_interrupt(&s);
        assert_eq!(usb.state, state);
        assert_eq!(
            actions,
            vec![
                Action::Write { register: Register::InInterrupt(0), value: 0x41 },
                Action::Write { register: Register::InControl(0), value: ENABLE },
                Action::Write { register: Register::InterruptStatus, value: 0x0004_0000 },
            ]
        );
    }
}

#[test]
fn core_interrupts() {
    let mut usb = driver();
    let mut s = quiet();
    s.interrupt_status = 0x00c8;
    s.interrupt_mask = 0x0008;
    assert_eq!(
        usb.handle_interrupt(&s),
        vec![
            Action::Modify { register: Register::InterruptMask, clear: 0x8, set: 0 },
            Action::Modify { register: Register::DeviceControl, clear: 0, set: 0x400 },
            Action::Modify { register: Register::DeviceControl, clear: 0, set: 0x100 },
            Action::Write { register: Register::InterruptStatus, value: 0x00c8 },
        ]
    );
    // A start of frame that is masked, and the states that are not supported.
    s.interrupt_status = 0x2c08;
    s.interrupt_mask = 0;
    assert_eq!(
        usb.handle_interrupt(&s),
        vec![Action::Write { register: Register::InterruptStatus, value: 0x2c08 }]
    );
}

#[test]
fn uninitialized_driver() {
    let mut usb = USB::new();
    assert!(!usb.accepts_interrupt(&setup(&usb, 0x1, [0x80, 6, 0, 1, 0, 0, 64, 0])));
    let mut s = quiet();
    s.interrupt_status = 0x1000;
    assert!(usb.accepts_interrupt(&s));
    assert_eq!(
        usb.handle_interrupt(&s),
        vec![
            Action::Modify { register: MASK, clear: 0x1, set: 0x0001_0000 },
            Action::Write { register: Register::OutControl(0), value: ENABLE | CNAK },
            Action::Write { register: Register::InterruptStatus, value: 0x1000 },
        ]
    );
}

#[test]
fn events_of_endpoint_0() {
    let decide = Ep0Event::decide;
    let waiting = USBState::WaitingForSetupPacket;
    assert_eq!(decide(waiting, false, TableCase::A, true), Ep0Event::Setup);
    assert_eq!(decide(waiting, true, TableCase::C, false), Ep0Event::NotSetup);
    assert_eq!(decide(waiting, true, TableCase::B, true), Ep0Event::Stall);
    assert_eq!(decide(waiting, true, TableCase::E, true), Ep0Event::Nothing);
    assert_eq!(decide(USBState::DataStageIn, false, TableCase::A, true), Ep0Event::Nothing);
    assert_eq!(decide(USBState::DataStageIn, true, TableCase::C, true), Ep0Event::Setup);
    assert_eq!(decide(USBState::DataStageIn, true, TableCase::D, true), Ep0Event::Nothing);
    assert_eq!(decide(USBState::NoDataStage, true, TableCase::E, true), Ep0Event::ExpectSetup);
    assert_eq!(decide(USBState::NoDataStage, false, TableCase::D, true), Ep0Event::Nothing);
    assert_eq!(decide(USBState::NoDataStage, true, TableCase::B, false), Ep0Event::InDetected);
}

#[test]
fn setup_is_handled_in_any_stage() {
    for state in [USBState::WaitingForSetupPacket, USBState::DataStageIn, USBState::NoDataStage] {
        let mut usb = usb_copy(state);
        let m = handle(&mut usb, [0x80, 6, 0, 4, 0, 0, 64, 0]);
        assert_eq!(usb.state, USBState::DataStageIn);
        assert_eq!(m.outgoing(), vec![9, 4, 0, 0, 2, 3, 0, 0, 6]);
    }
}

#[test]
fn interrupts_keep_the_rest_of_the_driver() {
    let mut usb = driver();
    for packet in [
        [0x80, 6, 0, 1, 0, 0, 64, 0],
        [0x80, 6, 0, 2, 0, 0, 64, 0],
        [0x80, 0, 0, 0, 0, 0, 2, 0],
        [0x00, 5, 9, 0, 0, 0, 0, 0],
        [0x21, 10, 0, 0, 0, 0, 0, 0],
    ] {
        handle(&mut usb, packet);
        handle(&mut usb, packet);
        usb.state = USBState::WaitingForSetupPacket;
        usb.last_ep0_out_idx = 0;
        assert_eq!(format!("{:?}", usb), format!("{:?}", driver()));
    }
}

#[test]
fn mask_follows_the_stage() {
    let mut usb = driver();
    let mut m = Machine::new();
    let mut reset = quiet();
    reset.interrupt_status = 0x1000;
    m.run(&usb.handle_interrupt(&reset));
    assert_eq!(m.register(MASK) & 0x0001_0001, 0x0001_0000);
    let steps: [([u8; 8], u32); 5] = [
        ([0x80, 6, 0, 1, 0, 0, 64, 0], 0x0001_0001),
        ([0x21, 10, 0, 0, 0, 0, 0, 0], 0x0001_0000),
        ([0x00, 5, 9, 0, 0, 0, 0, 0], 0x0001_0001),
        ([0xc0, 1, 0, 0, 0, 0, 0, 0], 0x0001_0001),
        ([0x80, 6, 0, 6, 0, 0, 64, 0], 0x0001_0000),
    ];
    for (packet, expected) in steps {
        let snapshot = setup(&usb, 0x1, packet);
        m.run(&usb.handle_interrupt(&snapshot));
        assert_eq!(m.register(MASK) & 0x0001_0001, expected);
        assert_eq!(expected == 0x0001_0000, usb.state == USBState::WaitingForSetupPacket);
    }
}
