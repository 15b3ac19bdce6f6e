//! Register bits, descriptor codes and sizes of the USB device controller.

use vstd::prelude::*;

verus! {

// Buffer geometry.

/// Number of OUT descriptors, and of 64-byte OUT buffers, of endpoint 0.
pub const EP0_OUT_BUFFER_COUNT: usize = 2;

/// Number of IN descriptors of endpoint 0.
pub const EP0_IN_BUFFER_COUNT: usize = 4;

/// Size of one DMA descriptor in memory, in bytes.
pub const DMA_DESCRIPTOR_SIZE: u32 = 8;

/// Largest packet that endpoint 0 exchanges.
pub const MAX_PACKET_SIZE: u16 = 64;

/// Size of one U2F frame on endpoint 1.
pub const U2F_REPORT_SIZE: u16 = 64;

/// Depth of the shared receive FIFO, in words.
pub const RX_FIFO_SIZE: u16 = 512;

/// Depth of each transmit FIFO, in words.
pub const TX_FIFO_SIZE: u16 = 32;

/// Number of dedicated IN endpoint transmit FIFO size registers.
pub const IN_EP_TX_FIFO_COUNT: usize = 15;

/// Number of endpoint register blocks in each direction.
pub const ENDPOINT_COUNT: usize = 16;

// Core interrupt status and mask bits.

pub const SOF: u32 = 0x0000_0008;

pub const GINNAKEFF: u32 = 0x0000_0040;

pub const GOUTNAKEFF: u32 = 0x0000_0080;

pub const EARLY_SUSPEND: u32 = 0x0000_0400;

pub const USB_SUSPEND: u32 = 0x0000_0800;

pub const USB_RESET: u32 = 0x0000_1000;

pub const ENUM_DONE: u32 = 0x0000_2000;

pub const IEPINT: u32 = 0x0004_0000;

pub const OEPINT: u32 = 0x0008_0000;

// OUT endpoint interrupt bits.

pub const OUT_XFER_COMPLETE: u32 = 0x0000_0001;

pub const OUT_EP_DISABLED: u32 = 0x0000_0002;

pub const OUT_SETUP: u32 = 0x0000_0008;

pub const OUT_STS_PHSE_RCVD: u32 = 0x0000_0020;

// IN endpoint interrupt bits.

pub const IN_XFER_COMPLETE: u32 = 0x0000_0001;

pub const IN_EP_DISABLED: u32 = 0x0000_0002;

// Bits of the "all endpoints" interrupt register and of its mask.

pub const ALL_IN0: u32 = 0x0000_0001;

pub const ALL_IN1: u32 = 0x0000_0002;

pub const ALL_OUT0: u32 = 0x0001_0000;

pub const ALL_OUT1: u32 = 0x0002_0000;

// Reset register bits.

pub const RESET_CORE: u32 = 0x0000_0001;

pub const RESET_RX_FLUSH: u32 = 0x0000_0010;

pub const RESET_TX_FLUSH: u32 = 0x0000_0020;

pub const RESET_AHB_IDLE: u32 = 0x8000_0000;

/// FIFO number that selects every transmit FIFO in a flush.
pub const FLUSH_ALL_FIFOS: u8 = 16;

/// How often the reset register is polled before a wait gives up.
pub const RESET_TIMEOUT: u32 = 10000;

// Endpoint control register bits.

pub const EPCTL_USBACTEP: u32 = 0x0000_8000;

pub const EPCTL_INTERRUPT: u32 = 0x000c_0000;

pub const EPCTL_STALL: u32 = 0x0020_0000;

pub const EPCTL_TXFNUM_1: u32 = 0x0040_0000;

pub const EPCTL_CNAK: u32 = 0x0400_0000;

pub const EPCTL_ENABLE: u32 = 0x8000_0000;

// DMA descriptor flag bits. The two top bits hold who owns the buffer; the low
// half holds the number of bytes.

pub const DESC_HOST_READY: u32 = 0x0000_0000;

pub const DESC_DMA_DONE: u32 = 0x8000_0000;

pub const DESC_HOST_BUSY: u32 = 0xc000_0000;

pub const DESC_STATUS_MASK: u32 = 0xc000_0000;

pub const DESC_LAST: u32 = 0x0800_0000;

pub const DESC_SHORT: u32 = 0x0400_0000;

pub const DESC_IOC: u32 = 0x0200_0000;

pub const DESC_SETUP_READY: u32 = 0x0100_0000;

// Device control and device configuration register bits.

/// Soft disconnect.
pub const DEVICE_CONTROL_DISCONNECT: u32 = 0x0000_0002;

/// Clear the global non-periodic IN NAK.
pub const DEVICE_CONTROL_CLEAR_IN_NAK: u32 = 0x0000_0100;

/// Clear the global OUT NAK.
pub const DEVICE_CONTROL_CLEAR_OUT_NAK: u32 = 0x0000_0400;

/// Power-on programming done.
pub const DEVICE_CONTROL_POWER_ON_DONE: u32 = 0x0000_0800;

/// Device speed: USB 1.1 full speed, 48 MHz.
pub const DEVICE_CONFIG_FULL_SPEED: u32 = 0x0000_0003;

/// The device address field, bits 10:4.
pub const DEVICE_CONFIG_ADDRESS: u32 = 0x0000_07f0;

/// Scatter/gather DMA enable.
pub const DEVICE_CONFIG_SCATTER_GATHER: u32 = 0x0080_0000;

// Descriptor types that a GET_DESCRIPTOR request to the device may ask for.

pub const GET_DESCRIPTOR_DEVICE: u32 = 1;

pub const GET_DESCRIPTOR_CONFIGURATION: u32 = 2;

pub const GET_DESCRIPTOR_STRING: u32 = 3;

pub const GET_DESCRIPTOR_INTERFACE: u32 = 4;

pub const GET_DESCRIPTOR_DEVICE_QUALIFIER: u32 = 6;

// Indices into the string descriptors.

pub const STRING_LANG: u8 = 0;

pub const STRING_VENDOR: u8 = 1;

pub const STRING_BOARD: u8 = 2;

pub const STRING_PLATFORM: u8 = 3;

pub const STRING_INTERFACE2: u8 = 6;

} // verus!
