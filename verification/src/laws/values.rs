//! The values that the driver puts into registers and descriptors.

use vstd::prelude::*;

use crate::action::modified;
use crate::constants::{
    ALL_IN0, ALL_IN1, ALL_OUT0, ALL_OUT1, DESC_HOST_BUSY, DESC_HOST_READY, DESC_IOC, DESC_LAST,
    DESC_SHORT, DEVICE_CONFIG_FULL_SPEED, DEVICE_CONFIG_SCATTER_GATHER,
    DEVICE_CONTROL_CLEAR_IN_NAK, DEVICE_CONTROL_CLEAR_OUT_NAK, DEVICE_CONTROL_DISCONNECT,
    DEVICE_CONTROL_POWER_ON_DONE, EARLY_SUSPEND, ENUM_DONE,
    EPCTL_CNAK, EPCTL_ENABLE, EPCTL_INTERRUPT, EPCTL_STALL, EPCTL_TXFNUM_1, EPCTL_USBACTEP,
    GINNAKEFF, GOUTNAKEFF, IEPINT, IN_EP_DISABLED, IN_XFER_COMPLETE, OEPINT, OUT_EP_DISABLED,
    OUT_SETUP, OUT_XFER_COMPLETE, SOF, U2F_REPORT_SIZE, USB_RESET, USB_SUSPEND,
};
use crate::endpoint0::{receive_flags, send_flags, stall_flags};
use crate::endpoint1::{ep1_in_control, ep1_out_control, frame_flags};
use crate::init::core_interrupts;

verus! {

/// Modifying a register sets the bits to set, clears those of the others that are
/// to be cleared, and keeps the rest.
pub proof fn law_modified(value: u32, clear: u32, set: u32)
    ensures
        modified(value, clear, set) & set == set,
        modified(value, clear, set) & clear & !set == 0,
        modified(value, clear, set) & !clear & !set == value & !clear & !set,
{
    let new = modified(value, clear, set);
    assert(new & set == set && new & clear & !set == 0 && new & !clear & !set == value & !clear
        & !set) by (bit_vector)
        requires
            new == modified(value, clear, set),
    ;
}

pub(crate) proof fn lemma_modified(value: u32, clear: u32, set: u32)
    ensures
        modified(value, 0, set) == value | set,
        modified(value, clear, 0) == value & !clear,
{
    assert((value & !0u32) | set == value | set && (value & !clear) | 0u32 == value & !clear)
        by (bit_vector);
}

pub(crate) proof fn lemma_send_value(bytes: u16)
    ensures
        send_flags(bytes) == 0x0e00_0000u32 | bytes as u32,
{
    assert(DESC_HOST_READY | DESC_LAST | DESC_SHORT | DESC_IOC == 0x0e00_0000) by (bit_vector);
}

pub(crate) proof fn lemma_values()
    ensures
        OEPINT | IEPINT == 0x000c_0000,
        ALL_IN0 | ALL_OUT0 == 0x0001_0001,
        ALL_OUT1 | ALL_IN1 == 0x0002_0002,
        EPCTL_ENABLE | EPCTL_CNAK == 0x8400_0000,
        EPCTL_ENABLE | EPCTL_STALL == 0x8020_0000,
        DESC_LAST | DESC_HOST_BUSY | DESC_IOC == 0xca00_0000,
        receive_flags() == 0x0a00_0040,
        stall_flags() == 0x0a00_0040,
        frame_flags() == 0x0a00_0040,
        ep1_out_control() == 0x840c_8040,
        ep1_in_control() == 0x004c_8040,
{
    assert(OEPINT | IEPINT == 0x000c_0000 && ALL_IN0 | ALL_OUT0 == 0x0001_0001 && ALL_OUT1
        | ALL_IN1 == 0x0002_0002 && EPCTL_ENABLE | EPCTL_CNAK == 0x8400_0000 && EPCTL_ENABLE
        | EPCTL_STALL == 0x8020_0000 && DESC_LAST | DESC_HOST_BUSY | DESC_IOC == 0xca00_0000
        && (DESC_HOST_READY | DESC_LAST | DESC_IOC) | 64u16 as u32 == 0x0a00_0040 && (DESC_LAST
        | DESC_IOC) | 64u16 as u32 == 0x0a00_0040 && (DESC_LAST | DESC_HOST_READY | DESC_IOC)
        | U2F_REPORT_SIZE as u32 == 0x0a00_0040 && (EPCTL_ENABLE | EPCTL_CNAK | EPCTL_USBACTEP
        | EPCTL_INTERRUPT) | U2F_REPORT_SIZE as u32 == 0x840c_8040 && (EPCTL_USBACTEP
        | EPCTL_INTERRUPT | EPCTL_TXFNUM_1) | U2F_REPORT_SIZE as u32 == 0x004c_8040)
        by (bit_vector);
}

pub(crate) proof fn lemma_start_values()
    ensures
        core_interrupts() == 0x000c_3cc8,
        DEVICE_CONFIG_FULL_SPEED | DEVICE_CONFIG_SCATTER_GATHER == 0x0080_0003,
        DEVICE_CONTROL_CLEAR_OUT_NAK | DEVICE_CONTROL_CLEAR_IN_NAK == 0x0000_0500,
        OUT_XFER_COMPLETE | OUT_EP_DISABLED | OUT_SETUP == 0x0000_000b,
        IN_XFER_COMPLETE | IN_EP_DISABLED == 0x0000_0003,
        DEVICE_CONTROL_DISCONNECT | DEVICE_CONTROL_POWER_ON_DONE == 0x0000_0802,
{
    assert(GOUTNAKEFF | GINNAKEFF | USB_RESET | ENUM_DONE | OEPINT | IEPINT | EARLY_SUSPEND
        | USB_SUSPEND | SOF == 0x000c_3cc8 && DEVICE_CONFIG_FULL_SPEED
        | DEVICE_CONFIG_SCATTER_GATHER == 0x0080_0003 && DEVICE_CONTROL_CLEAR_OUT_NAK
        | DEVICE_CONTROL_CLEAR_IN_NAK == 0x0000_0500 && OUT_XFER_COMPLETE | OUT_EP_DISABLED
        | OUT_SETUP == 0x0000_000b && IN_XFER_COMPLETE | IN_EP_DISABLED == 0x0000_0003
        && DEVICE_CONTROL_DISCONNECT | DEVICE_CONTROL_POWER_ON_DONE == 0x0000_0802)
        by (bit_vector);
}

} // verus!
