//! Bringing up the controller.

use vstd::prelude::*;

use crate::action::{Action, PeripheralClock, Register};
use crate::constants::{
    DEVICE_CONFIG_FULL_SPEED, DEVICE_CONFIG_SCATTER_GATHER, DEVICE_CONTROL_CLEAR_IN_NAK,
    DEVICE_CONTROL_CLEAR_OUT_NAK, DEVICE_CONTROL_DISCONNECT, DEVICE_CONTROL_POWER_ON_DONE,
    EARLY_SUSPEND, ENDPOINT_COUNT, ENUM_DONE, FLUSH_ALL_FIFOS, GINNAKEFF, GOUTNAKEFF, IEPINT,
    IN_EP_DISABLED, IN_EP_TX_FIFO_COUNT, IN_XFER_COMPLETE, OEPINT, OUT_EP_DISABLED, OUT_SETUP,
    OUT_XFER_COMPLETE, RESET_AHB_IDLE, RESET_CORE, RESET_TIMEOUT, RX_FIFO_SIZE, SOF,
    STRING_INTERFACE2, STRING_PLATFORM, TX_FIFO_SIZE, USB_RESET, USB_SUSPEND,
};
use crate::descriptor::{
    ConfigurationDescriptor, EndpointAttributes, EndpointDescriptor, EndpointSynchronizationType,
    EndpointTransferType, EndpointUsageType, HidDeviceDescriptor, InterfaceDescriptor,
    StringDescriptor,
};
use crate::endpoint0::{flush_rx_actions, flush_rx_fifo, flush_tx_actions, flush_tx_fifo};
use crate::setup::u2f_interface;
use crate::usb::{fits, strings_wf, PHY, USB};

verus! {

/// How far the wait for a soft reset of the core has got. The numbers count the
/// reads of the reset register that may still show no progress.
#[derive(Copy, Clone, PartialEq, Eq, Structural, Debug)]
pub enum SoftReset {
    /// The core still has to clear the reset flag.
    Resetting(u32),
    /// The core has cleared the reset flag; it still has to set the idle flag.
    Idling(u32),
    /// There is nothing more to wait for, or the wait has taken too long.
    Done,
}

impl SoftReset {
    /// The wait as it begins.
    pub open spec fn start() -> SoftReset {
        SoftReset::Resetting(RESET_TIMEOUT)
    }

    /// How far the wait has got after the reset register was read as `reset`.
    pub open spec fn after(self, reset: u32) -> SoftReset {
        match self {
            SoftReset::Resetting(timeout) => if reset & RESET_CORE == 1 {
                if timeout == 0 {
                    SoftReset::Done
                } else {
                    SoftReset::Resetting((timeout - 1) as u32)
                }
            } else {
                SoftReset::Idling(RESET_TIMEOUT)
            },
            SoftReset::Idling(timeout) => if reset & RESET_AHB_IDLE == 0 && timeout > 0 {
                SoftReset::Idling((timeout - 1) as u32)
            } else {
                SoftReset::Done
            },
            SoftReset::Done => SoftReset::Done,
        }
    }

    /// How far the wait has got after a series of reads.
    pub open spec fn after_all(self, reads: Seq<u32>) -> SoftReset
        decreases reads.len(),
    {
        if reads.len() == 0 {
            self
        } else {
            self.after_all(reads.drop_last()).after(reads.last())
        }
    }

    /// The wait begins.
    pub fn new() -> (r: SoftReset)
        ensures
            r == SoftReset::Resetting(RESET_TIMEOUT),
            r == SoftReset::start(),
    {
        SoftReset::Resetting(RESET_TIMEOUT)
    }

    /// Takes note of what was read from the reset register. Returns whether it
    /// has to be read again.
    pub fn poll(&mut self, reset: u32) -> (again: bool)
        ensures
            *final(self) == old(self).after(reset),
            again == (*final(self) != SoftReset::Done),
    {
        let next: SoftReset = match *self {
            SoftReset::Resetting(timeout) => {
                if reset & RESET_CORE == 1 {
                    if timeout == 0 {
                        SoftReset::Done
                    } else {
                        SoftReset::Resetting(timeout - 1)
                    }
                } else {
                    SoftReset::Idling(RESET_TIMEOUT)
                }
            },
            SoftReset::Idling(timeout) => {
                if reset & RESET_AHB_IDLE == 0 && timeout > 0 {
                    SoftReset::Idling(timeout - 1)
                } else {
                    SoftReset::Done
                }
            },
            SoftReset::Done => SoftReset::Done,
        };
        *self = next;
        next != SoftReset::Done
    }
}

/// What resets the core softly.
pub open spec fn soft_reset_actions() -> Seq<Action> {
    seq![
        Action::Write { register: Register::Reset, value: RESET_CORE },
        Action::WaitSoftReset,
    ]
}

/// Performs a soft reset on the USB core; gives up waiting if the reset takes
/// too long.
pub fn soft_reset(out: &mut Vec<Action>)
    ensures
        final(out)@ == old(out)@ + soft_reset_actions(),
{
    out.push(Action::Write { register: Register::Reset, value: RESET_CORE });
    out.push(Action::WaitSoftReset);
}

/// The FIFO layout register value for a transmit FIFO that starts at `start`.
pub open spec fn tx_fifo_size(start: int) -> u32 {
    (0x1_0000 * TX_FIFO_SIZE + start) as u32
}

/// What sets the sizes of the dedicated transmit FIFOs, which follow each other
/// behind the receive FIFO.
pub open spec fn in_ep_fifo_actions() -> Seq<Action> {
    Seq::new(
        15,
        |i: int|
            Action::Write {
                register: Register::DeviceInEpTxFifoSize(i as usize),
                value: tx_fifo_size(RX_FIFO_SIZE + i * TX_FIFO_SIZE),
            },
    )
}

/// What sets up the data FIFOs.
pub open spec fn data_fifo_actions() -> Seq<Action> {
    seq![
        Action::Write { register: Register::ReceiveFifoSize, value: RX_FIFO_SIZE as u32 },
        Action::Write {
            register: Register::TransmitFifoSize,
            value: tx_fifo_size(RX_FIFO_SIZE as int),
        },
    ] + in_ep_fifo_actions() + flush_tx_actions(16) + flush_rx_actions()
}

/// Initializes the hardware data FIFOs.
///
/// The sizes matter for correct operation. If a transmit FIFO is too large, its
/// size register ends up being zero, which is too small to transfer anything:
/// 512 is too large.
pub fn setup_data_fifos(out: &mut Vec<Action>)
    ensures
        final(out)@ == old(out)@ + data_fifo_actions(),
{
    let rx: u32 = RX_FIFO_SIZE as u32 & 0xffff;
    let tx: u32 = (TX_FIFO_SIZE as u32) << 16;
    assert(rx == 512 && tx == 0x20_0000 && tx | rx == 0x20_0200) by (bit_vector)
        requires
            rx == RX_FIFO_SIZE as u32 & 0xffff,
            tx == (TX_FIFO_SIZE as u32) << 16,
    ;
    out.push(Action::Write { register: Register::ReceiveFifoSize, value: rx });
    out.push(Action::Write { register: Register::TransmitFifoSize, value: tx | rx });
    let ghost start = out@;
    let mut i: usize = 0;
    while i < IN_EP_TX_FIFO_COUNT
        invariant
            i <= IN_EP_TX_FIFO_COUNT,
            tx == 0x20_0000,
            out@ == start + in_ep_fifo_actions().take(i as int),
        decreases IN_EP_TX_FIFO_COUNT - i,
    {
        let base: u32 = (RX_FIFO_SIZE + i as u16 * TX_FIFO_SIZE) as u32;
        assert(tx | base == tx + base) by (bit_vector)
            requires
                tx == 0x20_0000,
                base < 0x1_0000,
        ;
        out.push(
            Action::Write { register: Register::DeviceInEpTxFifoSize(i), value: tx | base },
        );
        i = i + 1;
        assert(in_ep_fifo_actions().take(i as int) =~= in_ep_fifo_actions().take(i - 1).push(
            in_ep_fifo_actions()[i - 1],
        ));
    }
    assert(in_ep_fifo_actions().take(i as int) =~= in_ep_fifo_actions());
    flush_tx_fifo(FLUSH_ALL_FIFOS, out);
    flush_rx_fifo(out);
}

/// The attributes of the endpoints that U2F uses.
pub open spec fn u2f_attributes() -> EndpointAttributes {
    EndpointAttributes {
        transfer: EndpointTransferType::Interrupt,
        synchronization: EndpointSynchronizationType::Unsynchronized,
        usage: EndpointUsageType::Data,
    }
}

/// What follows the configuration descriptor in the full one: the U2F interface
/// descriptor, the HID device descriptor and the descriptors of endpoint 1 OUT
/// and IN.
pub open spec fn configuration_parts() -> Seq<u8> {
    u2f_interface().wire() + HidDeviceDescriptor::u2f().wire() + EndpointDescriptor::with(
        0x01,
        u2f_attributes(),
        2,
    ).wire() + EndpointDescriptor::with(0x81, u2f_attributes(), 2).wire()
}

/// The configuration descriptor, with the length of the full one.
pub open spec fn configuration_head() -> ConfigurationDescriptor {
    ConfigurationDescriptor {
        b_length: 9,
        b_descriptor_type: 2,
        w_total_length: (9 + configuration_parts().len()) as u16,
        b_num_interfaces: 1,
        b_configuration_value: 1,
        i_configuration: STRING_PLATFORM,
        bm_attributes: 0x80,
        b_max_power: 50,
    }
}

/// The full configuration descriptor.
pub open spec fn full_configuration() -> Seq<u8> {
    configuration_head().wire() + configuration_parts()
}

/// `bytes` in place of what `buffer` holds from `at` on.
pub open spec fn overwritten(buffer: Seq<u8>, at: int, bytes: Seq<u8>) -> Seq<u8> {
    buffer.take(at) + bytes + buffer.skip(at + bytes.len())
}

/// Copies `bytes` into `buffer` from `at` on. Returns how many were copied.
fn copy_into(buffer: &mut [u8; 64], at: usize, bytes: &Vec<u8>) -> (len: usize)
    requires
        at + bytes@.len() <= 64,
    ensures
        len == bytes@.len(),
        final(buffer)@ == overwritten(old(buffer)@, at as int, bytes@),
{
    let ghost before = buffer@;
    let len: usize = bytes.len();
    let mut i: usize = 0;
    while i < len
        invariant
            i <= len,
            len == bytes@.len(),
            at + len <= 64,
            before.len() == 64,
            buffer@ == overwritten(before, at as int, bytes@.take(i as int)),
        decreases len - i,
    {
        buffer[at + i] = bytes[i];
        i = i + 1;
        assert(buffer@ =~= overwritten(before, at as int, bytes@.take(i as int)));
    }
    assert(bytes@.take(i as int) =~= bytes@);
    len
}

/// Core interrupts that the driver listens to.
pub open spec fn core_interrupts() -> u32 {
    GOUTNAKEFF | GINNAKEFF | USB_RESET | ENUM_DONE | OEPINT | IEPINT | EARLY_SUSPEND | USB_SUSPEND
        | SOF
}

/// The value of the GPIO register that selects a PHY and sets it active.
pub open spec fn phy_select(phy: PHY) -> u32 {
    match phy {
        PHY::A => 0x8040_0000,
        PHY::B => 0x8050_0000,
    }
}

/// The value of the configuration register: USB 1.1 full speed, 6-pin
/// unidirectional, turnaround time 14, timeout calibration 7.
pub open spec fn core_configuration() -> u32 {
    (0x40 + 0x400 * 14 + 7) as u32
}

/// What starts the clocks, masks every interrupt, selects the PHY and resets
/// the core.
pub open spec fn start_core_actions(phy: PHY) -> Seq<Action> {
    seq![
        Action::EnableClock { clock: PeripheralClock::Usb0 },
        Action::EnableClock { clock: PeripheralClock::Usb0TimerHs },
        Action::Write { register: Register::InterruptMask, value: 0 },
        Action::Write { register: Register::DeviceAllEpInterruptMask, value: 0 },
        Action::Write { register: Register::DeviceInEpInterruptMask, value: 0 },
        Action::Write { register: Register::DeviceOutEpInterruptMask, value: 0 },
        Action::Write { register: Register::Gpio, value: phy_select(phy) },
        Action::Write { register: Register::Configuration, value: core_configuration() },
    ] + soft_reset_actions() + seq![
        Action::Write { register: Register::Configuration, value: core_configuration() },
    ]
}

/// What enables DMA, keeps the device disconnected and configures it as a full
/// speed device in scatter/gather mode.
pub open spec fn configure_actions() -> Seq<Action> {
    seq![
        Action::Write { register: Register::AhbConfig, value: 0xa1 },
        Action::Modify {
            register: Register::DeviceControl,
            clear: 0,
            set: DEVICE_CONTROL_DISCONNECT,
        },
        Action::Modify {
            register: Register::DeviceConfig,
            clear: 0,
            set: DEVICE_CONFIG_FULL_SPEED | DEVICE_CONFIG_SCATTER_GATHER,
        },
    ] + data_fifo_actions()
}

/// What clears every pending interrupt.
pub open spec fn clear_all_actions() -> Seq<Action> {
    Seq::new(
        16,
        |i: int|
            Action::Write { register: Register::OutInterrupt(i as usize), value: 0xffff_ffff },
    ) + Seq::new(
        16,
        |i: int|
            Action::Write { register: Register::InInterrupt(i as usize), value: 0xffff_ffff },
    ) + seq![Action::Write { register: Register::InterruptStatus, value: 0xffff_ffff }]
}

/// What unmasks the interrupts that the driver listens to and connects the
/// device.
pub open spec fn connect_actions() -> Seq<Action> {
    seq![
        Action::Write {
            register: Register::DeviceOutEpInterruptMask,
            value: OUT_XFER_COMPLETE | OUT_EP_DISABLED | OUT_SETUP,
        },
        Action::Write {
            register: Register::DeviceInEpInterruptMask,
            value: IN_XFER_COMPLETE | IN_EP_DISABLED,
        },
        Action::Write { register: Register::InterruptMask, value: core_interrupts() },
        Action::Modify {
            register: Register::DeviceControl,
            clear: 0,
            set: DEVICE_CONTROL_POWER_ON_DONE,
        },
        Action::Delay { nops: 10000 },
        Action::Modify {
            register: Register::DeviceControl,
            clear: DEVICE_CONTROL_POWER_ON_DONE,
            set: 0,
        },
        Action::Modify {
            register: Register::DeviceControl,
            clear: 0,
            set: DEVICE_CONTROL_CLEAR_OUT_NAK | DEVICE_CONTROL_CLEAR_IN_NAK,
        },
        Action::Modify {
            register: Register::DeviceControl,
            clear: DEVICE_CONTROL_DISCONNECT,
            set: 0,
        },
    ]
}

/// What is done after the soft reset of the core.
pub open spec fn after_reset_actions() -> Seq<Action> {
    seq![Action::Write { register: Register::Configuration, value: core_configuration() }]
        + configure_actions() + clear_all_actions() + connect_actions()
}

/// What brings the controller up.
pub open spec fn init_actions(phy: PHY) -> Seq<Action> {
    start_core_actions(phy) + configure_actions() + clear_all_actions() + connect_actions()
}

fn start_core(phy: PHY, out: &mut Vec<Action>)
    ensures
        final(out)@ == old(out)@ + start_core_actions(phy),
{
    out.push(Action::EnableClock { clock: PeripheralClock::Usb0 });
    out.push(Action::EnableClock { clock: PeripheralClock::Usb0TimerHs });
    out.push(Action::Write { register: Register::InterruptMask, value: 0 });
    out.push(Action::Write { register: Register::DeviceAllEpInterruptMask, value: 0 });
    out.push(Action::Write { register: Register::DeviceInEpInterruptMask, value: 0 });
    out.push(Action::Write { register: Register::DeviceOutEpInterruptMask, value: 0 });
    let sel_phy: u32 = match phy {
        PHY::A => 0b100,
        PHY::B => 0b101,
    };
    // Write mode, in the upper half: the custom configuration register.
    let gpio: u32 = (1u32 << 15 | sel_phy << 4) << 16;
    assert(gpio == (if sel_phy == 0b100 { 0x8040_0000u32 } else { 0x8050_0000u32 }))
        by (bit_vector)
        requires
            gpio == (1u32 << 15 | sel_phy << 4) << 16,
            sel_phy == 0b100 || sel_phy == 0b101,
    ;
    out.push(Action::Write { register: Register::Gpio, value: gpio });
    let configuration: u32 = 1u32 << 6 | 14u32 << 10 | 7;
    assert(configuration == 0x3847) by (bit_vector)
        requires
            configuration == 1u32 << 6 | 14u32 << 10 | 7,
    ;
    out.push(Action::Write { register: Register::Configuration, value: configuration });
    soft_reset(out);
    out.push(Action::Write { register: Register::Configuration, value: configuration });
}

fn configure(out: &mut Vec<Action>)
    ensures
        final(out)@ == old(out)@ + configure_actions(),
{
    // Global interrupt unmask, DMA enable, and interrupt on the non-periodic
    // transmit FIFO being completely empty.
    let ahb: u32 = 1u32 | 1u32 << 5 | 1u32 << 7;
    assert(ahb == 0xa1) by (bit_vector)
        requires
            ahb == 1u32 | 1u32 << 5 | 1u32 << 7,
    ;
    out.push(Action::Write { register: Register::AhbConfig, value: ahb });
    out.push(
        Action::Modify {
            register: Register::DeviceControl,
            clear: 0,
            set: DEVICE_CONTROL_DISCONNECT,
        },
    );
    out.push(
        Action::Modify {
            register: Register::DeviceConfig,
            clear: 0,
            set: DEVICE_CONFIG_FULL_SPEED | DEVICE_CONFIG_SCATTER_GATHER,
        },
    );
    setup_data_fifos(out);
}

fn clear_all(out: &mut Vec<Action>)
    ensures
        final(out)@ == old(out)@ + clear_all_actions(),
{
    let ghost start = out@;
    let ghost all = clear_all_actions();
    let mut i: usize = 0;
    while i < ENDPOINT_COUNT
        invariant
            i <= ENDPOINT_COUNT,
            all == clear_all_actions(),
            out@ == start + all.take(i as int),
        decreases ENDPOINT_COUNT - i,
    {
        out.push(Action::Write { register: Register::OutInterrupt(i), value: 0xffff_ffff });
        i = i + 1;
        assert(all.take(i as int) =~= all.take(i - 1).push(all[i - 1]));
    }
    let mut k: usize = 0;
    while k < ENDPOINT_COUNT
        invariant
            k <= ENDPOINT_COUNT,
            all == clear_all_actions(),
            out@ == start + all.take(16 + k),
        decreases ENDPOINT_COUNT - k,
    {
        out.push(Action::Write { register: Register::InInterrupt(k), value: 0xffff_ffff });
        k = k + 1;
        assert(all.take(16 + k) =~= all.take(15 + k).push(all[15 + k]));
    }
    out.push(Action::Write { register: Register::InterruptStatus, value: 0xffff_ffff });
    assert(all =~= all.take(32).push(all[32]));
}

fn connect(out: &mut Vec<Action>)
    ensures
        final(out)@ == old(out)@ + connect_actions(),
{
    out.push(
        Action::Write {
            register: Register::DeviceOutEpInterruptMask,
            value: OUT_XFER_COMPLETE | OUT_EP_DISABLED | OUT_SETUP,
        },
    );
    out.push(
        Action::Write {
            register: Register::DeviceInEpInterruptMask,
            value: IN_XFER_COMPLETE | IN_EP_DISABLED,
        },
    );
    out.push(
        Action::Write {
            register: Register::InterruptMask,
            value: GOUTNAKEFF | GINNAKEFF | USB_RESET | ENUM_DONE | OEPINT | IEPINT | EARLY_SUSPEND
                | USB_SUSPEND | SOF,
        },
    );
    // Power-on programming done.
    out.push(
        Action::Modify {
            register: Register::DeviceControl,
            clear: 0,
            set: DEVICE_CONTROL_POWER_ON_DONE,
        },
    );
    out.push(Action::Delay { nops: 10000 });
    out.push(
        Action::Modify {
            register: Register::DeviceControl,
            clear: DEVICE_CONTROL_POWER_ON_DONE,
            set: 0,
        },
    );
    // Clear the global NAKs.
    out.push(
        Action::Modify {
            register: Register::DeviceControl,
            clear: 0,
            set: DEVICE_CONTROL_CLEAR_OUT_NAK | DEVICE_CONTROL_CLEAR_IN_NAK,
        },
    );
    // Clear the soft disconnect bit, to allow the core to issue a connect.
    out.push(
        Action::Modify {
            register: Register::DeviceControl,
            clear: DEVICE_CONTROL_DISCONNECT,
            set: 0,
        },
    );
}

/// The value that an option holds, or else `default`.
pub open spec fn or_else<T>(option: Option<T>, default: T) -> T {
    match option {
        Some(value) => value,
        None => default,
    }
}

/// A driver as it is after its configuration descriptor was generated: if it has a
/// buffer for it, the buffer starts with the full descriptor, and as many bytes count
/// as that has.
pub open spec fn generated(before: USB, after: USB) -> bool {
    match before.configuration_descriptor {
        Some(buffer) => {
            &&& after.configuration_descriptor is Some
            &&& (after.configuration_descriptor->0)@ == overwritten(
                buffer@,
                0,
                full_configuration(),
            )
            &&& after == (USB {
                configuration_descriptor: after.configuration_descriptor,
                configuration_total_length: full_configuration().len() as u16,
                ..before
            })
        },
        None => after == before,
    }
}

/// A driver as it is after it was initialized with these parameters.
pub open spec fn initialized(
    before: USB,
    after: USB,
    ep0_out_descriptors: u32,
    ep0_out_buffers: u32,
    ep0_in_descriptors: u32,
    ep0_in_buffers: u32,
    ep1_out_descriptor: u32,
    ep1_out_buffer: u32,
    ep1_in_descriptor: u32,
    ep1_in_buffer: u32,
    configuration_buffer: [u8; 64],
    device_class: Option<u8>,
    vendor_id: Option<u16>,
    product_id: Option<u16>,
    strings: Vec<StringDescriptor>,
) -> bool {
    generated(
        USB {
            ep0_out_descriptors: Some(ep0_out_descriptors),
            ep0_out_buffers: Some(ep0_out_buffers),
            ep0_in_descriptors: Some(ep0_in_descriptors),
            ep0_in_buffers: Some(ep0_in_buffers),
            ep1_out_descriptor: Some(ep1_out_descriptor),
            ep1_out_buffer: Some(ep1_out_buffer),
            ep1_in_descriptor: Some(ep1_in_descriptor),
            ep1_in_buffer: Some(ep1_in_buffer),
            configuration_descriptor: Some(configuration_buffer),
            device_class: or_else(device_class, before.device_class),
            vendor_id: or_else(vendor_id, before.vendor_id),
            product_id: or_else(product_id, before.product_id),
            strings: Some(strings),
            ..before
        },
        after,
    )
}

impl USB {
    /// Generates the binary representation of the configuration descriptor of
    /// the device, if there is a buffer for it. What the buffer holds behind it
    /// stays.
    pub fn generate_full_configuration_descriptor(&mut self)
        ensures
            *final(self) == (USB {
                configuration_descriptor: final(self).configuration_descriptor,
                configuration_total_length: if old(self).configuration_descriptor is Some {
                    full_configuration().len() as u16
                } else {
                    old(self).configuration_total_length
                },
                ..*old(self)
            }),
            final(self).configuration_descriptor is Some
                == old(self).configuration_descriptor is Some,
            old(self).configuration_descriptor matches Some(before) ==> (
            final(self).configuration_descriptor->0)@ == overwritten(
                before@,
                0,
                full_configuration(),
            ),
            generated(*old(self), *final(self)),
    {
        if let Some(before) = self.configuration_descriptor {
            let mut desc: [u8; 64] = before;
            let mut config: ConfigurationDescriptor = ConfigurationDescriptor::new(
                1,
                STRING_PLATFORM,
                50,
            );
            let attributes_u2f_in: EndpointAttributes = EndpointAttributes {
                transfer: EndpointTransferType::Interrupt,
                synchronization: EndpointSynchronizationType::Unsynchronized,
                usage: EndpointUsageType::Data,
            };
            let attributes_u2f_out: EndpointAttributes = EndpointAttributes {
                transfer: EndpointTransferType::Interrupt,
                synchronization: EndpointSynchronizationType::Unsynchronized,
                usage: EndpointUsageType::Data,
            };
            let u2f: Vec<u8> = InterfaceDescriptor::new(STRING_INTERFACE2, 0, 3, 0, 0).to_bytes();
            let hid: Vec<u8> = HidDeviceDescriptor::new().to_bytes();
            let ep1out: Vec<u8> = EndpointDescriptor::new(0x01, attributes_u2f_out, 2).to_bytes();
            let ep1in: Vec<u8> = EndpointDescriptor::new(0x81, attributes_u2f_in, 2).to_bytes();
            let mut size: usize = config.b_length as usize;
            size = size + copy_into(&mut desc, size, &u2f);
            size = size + copy_into(&mut desc, size, &hid);
            size = size + copy_into(&mut desc, size, &ep1out);
            size = size + copy_into(&mut desc, size, &ep1in);
            config.set_total_length(size as u16);
            copy_into(&mut desc, 0, &config.to_bytes());
            assert(configuration_parts() =~= u2f@ + hid@ + ep1out@ + ep1in@);
            assert(config == configuration_head());
            assert(desc@ =~= overwritten(before@, 0, full_configuration()));
            self.configuration_descriptor = Some(desc);
            self.set_configuration_total_length(size as u16);
        }
    }

    /// Initializes the driver in device mode, so that it can begin communicating
    /// with a connected host. Takes the addresses of the descriptors and buffers
    /// in shared memory, a buffer for the configuration descriptor, and what the
    /// device descriptor and the string descriptors tell the host.
    pub fn init(
        &mut self,
        ep0_out_descriptors: u32,
        ep0_out_buffers: u32,
        ep0_in_descriptors: u32,
        ep0_in_buffers: u32,
        ep1_out_descriptor: u32,
        ep1_out_buffer: u32,
        ep1_in_descriptor: u32,
        ep1_in_buffer: u32,
        configuration_buffer: [u8; 64],
        phy: PHY,
        device_class: Option<u8>,
        vendor_id: Option<u16>,
        product_id: Option<u16>,
        strings: Vec<StringDescriptor>,
    ) -> (actions: Vec<Action>)
        requires
            old(self).wf(),
            fits(Some(ep0_out_descriptors), 16),
            fits(Some(ep0_out_buffers), 128),
            fits(Some(ep0_in_descriptors), 32),
            fits(Some(ep0_in_buffers), 256),
            strings_wf(strings@),
        ensures
            final(self).wf(),
            *final(self) == (USB {
                ep0_out_descriptors: Some(ep0_out_descriptors),
                ep0_out_buffers: Some(ep0_out_buffers),
                ep0_in_descriptors: Some(ep0_in_descriptors),
                ep0_in_buffers: Some(ep0_in_buffers),
                ep1_out_descriptor: Some(ep1_out_descriptor),
                ep1_out_buffer: Some(ep1_out_buffer),
                ep1_in_descriptor: Some(ep1_in_descriptor),
                ep1_in_buffer: Some(ep1_in_buffer),
                device_class: or_else(device_class, old(self).device_class),
                vendor_id: or_else(vendor_id, old(self).vendor_id),
                product_id: or_else(product_id, old(self).product_id),
                configuration_descriptor: final(self).configuration_descriptor,
                configuration_total_length: full_configuration().len() as u16,
                strings: Some(strings),
                ..*old(self)
            }),
            final(self).configuration_descriptor is Some,
            (final(self).configuration_descriptor->0)@ == overwritten(
                configuration_buffer@,
                0,
                full_configuration(),
            ),
            actions@ == init_actions(phy),
            initialized(
                *old(self),
                *final(self),
                ep0_out_descriptors,
                ep0_out_buffers,
                ep0_in_descriptors,
                ep0_in_buffers,
                ep1_out_descriptor,
                ep1_out_buffer,
                ep1_in_descriptor,
                ep1_in_buffer,
                configuration_buffer,
                device_class,
                vendor_id,
                product_id,
                strings,
            ),
    {
        self.ep0_out_descriptors = Some(ep0_out_descriptors);
        self.ep0_out_buffers = Some(ep0_out_buffers);
        self.ep0_in_descriptors = Some(ep0_in_descriptors);
        self.ep0_in_buffers = Some(ep0_in_buffers);
        self.ep1_out_descriptor = Some(ep1_out_descriptor);
        self.ep1_out_buffer = Some(ep1_out_buffer);
        self.ep1_in_descriptor = Some(ep1_in_descriptor);
        self.ep1_in_buffer = Some(ep1_in_buffer);
        self.configuration_descriptor = Some(configuration_buffer);
        self.strings = Some(strings);
        if let Some(dclass) = device_class {
            self.device_class = dclass;
        }
        if let Some(vid) = vendor_id {
            self.vendor_id = vid;
        }
        if let Some(pid) = product_id {
            self.product_id = pid;
        }
        self.generate_full_configuration_descriptor();
        let mut out: Vec<Action> = Vec::new();
        start_core(phy, &mut out);
        configure(&mut out);
        clear_all(&mut out);
        connect(&mut out);
        out
    }
}

} // verus!
