//! Decoding of the interrupt registers.

use vstd::prelude::*;

use crate::constants::{OUT_SETUP, OUT_STS_PHSE_RCVD, OUT_XFER_COMPLETE};

verus! {

/// Combinations of OUT endpoint interrupts for control transfers denote
/// different transfer cases.
///
/// `TableCase` encodes the cases from Table 10.7 in the OTG Programming Guide.
#[derive(Copy, Clone, PartialEq, Eq, Structural, Debug)]
pub enum TableCase {
    /// Transfer complete alone: the OUT descriptor was updated; its setup-ready
    /// bit tells whether with a SETUP or with an OUT packet.
    A,
    /// Setup alone: the setup phase of the SETUP packet decoded before is done.
    B,
    /// Setup and transfer complete: the OUT descriptor was updated for a SETUP
    /// packet, and its setup phase is done.
    C,
    /// Status phase received alone: status phase of a control OUT transfer.
    D,
    /// Status phase received and transfer complete: the OUT descriptor was
    /// updated, and the host is in the status phase of a control write.
    E,
}

/// Whether any bit of `mask` is set in `value`.
pub open spec fn any_set(value: u32, mask: u32) -> bool {
    value & mask != 0
}

impl TableCase {
    /// The case that an OUT endpoint interrupt value stands for.
    pub open spec fn of(device_out_int: u32) -> TableCase {
        if any_set(device_out_int, OUT_SETUP) {
            if any_set(device_out_int, OUT_XFER_COMPLETE) { TableCase::C } else { TableCase::B }
        } else if !any_set(device_out_int, OUT_XFER_COMPLETE) {
            TableCase::D
        } else if any_set(device_out_int, OUT_STS_PHSE_RCVD) {
            TableCase::E
        } else {
            TableCase::A
        }
    }

    /// Decodes a value from the OUT endpoint interrupt register.
    ///
    /// Only properly decodes values with the combinations shown in the
    /// programming guide.
    pub fn decode_interrupt(device_out_int: u32) -> (case: TableCase)
        ensures
            case == TableCase::of(device_out_int),
    {
        if device_out_int & OUT_XFER_COMPLETE != 0 {
            if device_out_int & OUT_SETUP != 0 {
                TableCase::C
            } else if device_out_int & OUT_STS_PHSE_RCVD != 0 {
                TableCase::E
            } else {
                TableCase::A
            }
        } else {
            if device_out_int & OUT_SETUP != 0 {
                TableCase::B
            } else {
                TableCase::D
            }
        }
    }
}

/// The interrupts of the core.
#[derive(Copy, Clone, PartialEq, Eq, Structural, Debug)]
pub enum Interrupt {
    HostMode,
    Mismatch,
    OTG,
    SOF,
    RxFIFO,
    GlobalInNak,
    OutNak,
    EarlySuspend,
    Suspend,
    Reset,
    EnumDone,
    OutISOCDrop,
    EOPF,
    EndpointMismatch,
    InEndpoints,
    OutEndpoints,
    InISOCIncomplete,
    IncompletePeriodic,
    FetchSuspend,
    ResetDetected,
    ConnectIDChange,
    SessionRequest,
    ResumeWakeup,
}

impl Interrupt {
    /// Every interrupt, in the order of the bits.
    pub open spec fn all() -> Seq<Interrupt> {
        seq![
            Interrupt::HostMode,
            Interrupt::Mismatch,
            Interrupt::OTG,
            Interrupt::SOF,
            Interrupt::RxFIFO,
            Interrupt::GlobalInNak,
            Interrupt::OutNak,
            Interrupt::EarlySuspend,
            Interrupt::Suspend,
            Interrupt::Reset,
            Interrupt::EnumDone,
            Interrupt::OutISOCDrop,
            Interrupt::EOPF,
            Interrupt::EndpointMismatch,
            Interrupt::InEndpoints,
            Interrupt::OutEndpoints,
            Interrupt::InISOCIncomplete,
            Interrupt::IncompletePeriodic,
            Interrupt::FetchSuspend,
            Interrupt::ResetDetected,
            Interrupt::ConnectIDChange,
            Interrupt::SessionRequest,
            Interrupt::ResumeWakeup,
        ]
    }

    /// The bit of the interrupt in its register.
    pub open spec fn mask(self) -> u32 {
        match self {
            Interrupt::HostMode => 0x0000_0001,
            Interrupt::Mismatch => 0x0000_0002,
            Interrupt::OTG => 0x0000_0004,
            Interrupt::SOF => 0x0000_0008,
            Interrupt::RxFIFO => 0x0000_0010,
            Interrupt::GlobalInNak => 0x0000_0040,
            Interrupt::OutNak => 0x0000_0080,
            Interrupt::EarlySuspend => 0x0000_0400,
            Interrupt::Suspend => 0x0000_0800,
            Interrupt::Reset => 0x0000_1000,
            Interrupt::EnumDone => 0x0000_2000,
            Interrupt::OutISOCDrop => 0x0000_4000,
            Interrupt::EOPF => 0x0000_8000,
            Interrupt::EndpointMismatch => 0x0002_0000,
            Interrupt::InEndpoints => 0x0004_0000,
            Interrupt::OutEndpoints => 0x0008_0000,
            Interrupt::InISOCIncomplete => 0x0010_0000,
            Interrupt::IncompletePeriodic => 0x0020_0000,
            Interrupt::FetchSuspend => 0x0040_0000,
            Interrupt::ResetDetected => 0x0080_0000,
            Interrupt::ConnectIDChange => 0x1000_0000,
            Interrupt::SessionRequest => 0x4000_0000,
            Interrupt::ResumeWakeup => 0x8000_0000,
        }
    }

    /// What the interrupt is called.
    pub open spec fn name(self) -> Seq<char> {
        match self {
            Interrupt::HostMode => "Host mode"@,
            Interrupt::Mismatch => "Mismatch"@,
            Interrupt::OTG => "OTG"@,
            Interrupt::SOF => "SOF"@,
            Interrupt::RxFIFO => "RxFIFO"@,
            Interrupt::GlobalInNak => "GlobalInNak"@,
            Interrupt::OutNak => "OutNak"@,
            Interrupt::EarlySuspend => "EarlySuspend"@,
            Interrupt::Suspend => "Suspend"@,
            Interrupt::Reset => "USB reset"@,
            Interrupt::EnumDone => "Speed enum done"@,
            Interrupt::OutISOCDrop => "Out ISOC drop"@,
            Interrupt::EOPF => "EOPF"@,
            Interrupt::EndpointMismatch => "Endpoint mismatch"@,
            Interrupt::InEndpoints => "IN endpoints"@,
            Interrupt::OutEndpoints => "OUT endpoints"@,
            Interrupt::InISOCIncomplete => "IN ISOC incomplete"@,
            Interrupt::IncompletePeriodic => "Incomp periodic"@,
            Interrupt::FetchSuspend => "Fetch suspend"@,
            Interrupt::ResetDetected => "Reset detected"@,
            Interrupt::ConnectIDChange => "Connect ID change"@,
            Interrupt::SessionRequest => "Session request"@,
            Interrupt::ResumeWakeup => "Resume/wakeup"@,
        }
    }

    /// The interrupts that are set in `status`, in the order of the bits.
    pub open spec fn set_in(status: u32) -> Seq<Interrupt> {
        Interrupt::all().filter(|i: Interrupt| any_set(status, i.mask()))
    }

    /// The bit of the interrupt in its register.
    pub fn bit(&self) -> (bit: u32)
        ensures
            bit == self.mask(),
    {
        match self {
            Interrupt::HostMode => 0x0000_0001,
            Interrupt::Mismatch => 0x0000_0002,
            Interrupt::OTG => 0x0000_0004,
            Interrupt::SOF => 0x0000_0008,
            Interrupt::RxFIFO => 0x0000_0010,
            Interrupt::GlobalInNak => 0x0000_0040,
            Interrupt::OutNak => 0x0000_0080,
            Interrupt::EarlySuspend => 0x0000_0400,
            Interrupt::Suspend => 0x0000_0800,
            Interrupt::Reset => 0x0000_1000,
            Interrupt::EnumDone => 0x0000_2000,
            Interrupt::OutISOCDrop => 0x0000_4000,
            Interrupt::EOPF => 0x0000_8000,
            Interrupt::EndpointMismatch => 0x0002_0000,
            Interrupt::InEndpoints => 0x0004_0000,
            Interrupt::OutEndpoints => 0x0008_0000,
            Interrupt::InISOCIncomplete => 0x0010_0000,
            Interrupt::IncompletePeriodic => 0x0020_0000,
            Interrupt::FetchSuspend => 0x0040_0000,
            Interrupt::ResetDetected => 0x0080_0000,
            Interrupt::ConnectIDChange => 0x1000_0000,
            Interrupt::SessionRequest => 0x4000_0000,
            Interrupt::ResumeWakeup => 0x8000_0000,
        }
    }

    /// What the interrupt is called in debugging output.
    pub fn label(&self) -> (label: &'static str)
        ensures
            label@ == self.name(),
    {
        match self {
            Interrupt::HostMode => "Host mode",
            Interrupt::Mismatch => "Mismatch",
            Interrupt::OTG => "OTG",
            Interrupt::SOF => "SOF",
            Interrupt::RxFIFO => "RxFIFO",
            Interrupt::GlobalInNak => "GlobalInNak",
            Interrupt::OutNak => "OutNak",
            Interrupt::EarlySuspend => "EarlySuspend",
            Interrupt::Suspend => "Suspend",
            Interrupt::Reset => "USB reset",
            Interrupt::EnumDone => "Speed enum done",
            Interrupt::OutISOCDrop => "Out ISOC drop",
            Interrupt::EOPF => "EOPF",
            Interrupt::EndpointMismatch => "Endpoint mismatch",
            Interrupt::InEndpoints => "IN endpoints",
            Interrupt::OutEndpoints => "OUT endpoints",
            Interrupt::InISOCIncomplete => "IN ISOC incomplete",
            Interrupt::IncompletePeriodic => "Incomp periodic",
            Interrupt::FetchSuspend => "Fetch suspend",
            Interrupt::ResetDetected => "Reset detected",
            Interrupt::ConnectIDChange => "Connect ID change",
            Interrupt::SessionRequest => "Session request",
            Interrupt::ResumeWakeup => "Resume/wakeup",
        }
    }

    /// The interrupts that are set in `status`, in the order of the bits.
    pub fn pending(status: u32) -> (list: Vec<Interrupt>)
        ensures
            list@ == Interrupt::set_in(status),
    {
        let all: [Interrupt; 23] = [
            Interrupt::HostMode,
            Interrupt::Mismatch,
            Interrupt::OTG,
            Interrupt::SOF,
            Interrupt::RxFIFO,
            Interrupt::GlobalInNak,
            Interrupt::OutNak,
            Interrupt::EarlySuspend,
            Interrupt::Suspend,
            Interrupt::Reset,
            Interrupt::EnumDone,
            Interrupt::OutISOCDrop,
            Interrupt::EOPF,
            Interrupt::EndpointMismatch,
            Interrupt::InEndpoints,
            Interrupt::OutEndpoints,
            Interrupt::InISOCIncomplete,
            Interrupt::IncompletePeriodic,
            Interrupt::FetchSuspend,
            Interrupt::ResetDetected,
            Interrupt::ConnectIDChange,
            Interrupt::SessionRequest,
            Interrupt::ResumeWakeup,
        ];
        assert(all@ =~= Interrupt::all());
        let ghost is_set = |i: Interrupt| any_set(status, i.mask());
        let mut list: Vec<Interrupt> = Vec::new();
        let mut k: usize = 0;
        assert(all@.take(0).filter(is_set) =~= Seq::empty()) by {
            reveal(Seq::filter);
        }
        while k < 23
            invariant
                k <= 23,
                is_set == (|i: Interrupt| any_set(status, i.mask())),
                list@ == all@.take(k as int).filter(is_set),
            decreases 23 - k,
        {
            if status & all[k].bit() != 0 {
                list.push(all[k]);
            }
            k = k + 1;
            assert(all@.take(k as int).drop_last() =~= all@.take(k - 1));
            assert(all@.take(k as int).filter(is_set) =~= list@) by {
                reveal(Seq::filter);
            }
        }
        assert(all@.take(k as int) =~= all@);
        list
    }
}

/// The interrupts of an IN endpoint.
#[derive(Copy, Clone, PartialEq, Eq, Structural, Debug)]
pub enum InInterrupt {
    XferComplete,
    EPDisabled,
    AHBErr,
    Timeout,
    InTokenRecv,
    InTokenEPMis,
    InNakEffect,
    TxFifoReady,
    TxFifoUnder,
    BuffNotAvail,
    PacketDrop,
    BabbleErr,
    NAK,
    NYET,
    SetupRecvd,
}

impl InInterrupt {
    /// Every interrupt, in the order of the bits.
    pub open spec fn all() -> Seq<InInterrupt> {
        seq![
            InInterrupt::XferComplete,
            InInterrupt::EPDisabled,
            InInterrupt::AHBErr,
            InInterrupt::Timeout,
            InInterrupt::InTokenRecv,
            InInterrupt::InTokenEPMis,
            InInterrupt::InNakEffect,
            InInterrupt::TxFifoReady,
            InInterrupt::TxFifoUnder,
            InInterrupt::BuffNotAvail,
            InInterrupt::PacketDrop,
            InInterrupt::BabbleErr,
            InInterrupt::NAK,
            InInterrupt::NYET,
            InInterrupt::SetupRecvd,
        ]
    }

    /// The bit of the interrupt in its register.
    pub open spec fn mask(self) -> u32 {
        match self {
            InInterrupt::XferComplete => 0x0000_0001,
            InInterrupt::EPDisabled => 0x0000_0002,
            InInterrupt::AHBErr => 0x0000_0004,
            InInterrupt::Timeout => 0x0000_0008,
            InInterrupt::InTokenRecv => 0x0000_0010,
            InInterrupt::InTokenEPMis => 0x0000_0020,
            InInterrupt::InNakEffect => 0x0000_0040,
            InInterrupt::TxFifoReady => 0x0000_0080,
            InInterrupt::TxFifoUnder => 0x0000_0100,
            InInterrupt::BuffNotAvail => 0x0000_0200,
            InInterrupt::PacketDrop => 0x0000_0800,
            InInterrupt::BabbleErr => 0x0000_1000,
            InInterrupt::NAK => 0x0000_2000,
            InInterrupt::NYET => 0x0000_4000,
            InInterrupt::SetupRecvd => 0x0000_8000,
        }
    }

    /// What the interrupt is called.
    pub open spec fn name(self) -> Seq<char> {
        match self {
            InInterrupt::XferComplete => "Transfer complete"@,
            InInterrupt::EPDisabled => "Endpoint disabled"@,
            InInterrupt::AHBErr => "AHB Error"@,
            InInterrupt::Timeout => "Timeout"@,
            InInterrupt::InTokenRecv => "In token received"@,
            InInterrupt::InTokenEPMis => "In token EP mismatch"@,
            InInterrupt::InNakEffect => "In NAK effective"@,
            InInterrupt::TxFifoReady => "TXFifo ready"@,
            InInterrupt::TxFifoUnder => "TXFifo under"@,
            InInterrupt::BuffNotAvail => "Buff not available"@,
            InInterrupt::PacketDrop => "Packet drop"@,
            InInterrupt::BabbleErr => "Babble error"@,
            InInterrupt::NAK => "NAK"@,
            InInterrupt::NYET => "NYET"@,
            InInterrupt::SetupRecvd => "Setup received"@,
        }
    }

    /// The interrupts that are set in `status`, in the order of the bits.
    pub open spec fn set_in(status: u32) -> Seq<InInterrupt> {
        InInterrupt::all().filter(|i: InInterrupt| any_set(status, i.mask()))
    }

    /// The bit of the interrupt in its register.
    pub fn bit(&self) -> (bit: u32)
        ensures
            bit == self.mask(),
    {
        match self {
            InInterrupt::XferComplete => 0x0000_0001,
            InInterrupt::EPDisabled => 0x0000_0002,
            InInterrupt::AHBErr => 0x0000_0004,
            InInterrupt::Timeout => 0x0000_0008,
            InInterrupt::InTokenRecv => 0x0000_0010,
            InInterrupt::InTokenEPMis => 0x0000_0020,
            InInterrupt::InNakEffect => 0x0000_0040,
            InInterrupt::TxFifoReady => 0x0000_0080,
            InInterrupt::TxFifoUnder => 0x0000_0100,
            InInterrupt::BuffNotAvail => 0x0000_0200,
            InInterrupt::PacketDrop => 0x0000_0800,
            InInterrupt::BabbleErr => 0x0000_1000,
            InInterrupt::NAK => 0x0000_2000,
            InInterrupt::NYET => 0x0000_4000,
            InInterrupt::SetupRecvd => 0x0000_8000,
        }
    }

    /// What the interrupt is called in debugging output.
    pub fn label(&self) -> (label: &'static str)
        ensures
            label@ == self.name(),
    {
        match self {
            InInterrupt::XferComplete => "Transfer complete",
            InInterrupt::EPDisabled => "Endpoint disabled",
            InInterrupt::AHBErr => "AHB Error",
            InInterrupt::Timeout => "Timeout",
            InInterrupt::InTokenRecv => "In token received",
            InInterrupt::InTokenEPMis => "In token EP mismatch",
            InInterrupt::InNakEffect => "In NAK effective",
            InInterrupt::TxFifoReady => "TXFifo ready",
            InInterrupt::TxFifoUnder => "TXFifo under",
            InInterrupt::BuffNotAvail => "Buff not available",
            InInterrupt::PacketDrop => "Packet drop",
            InInterrupt::BabbleErr => "Babble error",
            InInterrupt::NAK => "NAK",
            InInterrupt::NYET => "NYET",
            InInterrupt::SetupRecvd => "Setup received",
        }
    }

    /// The interrupts that are set in `status`, in the order of the bits.
    pub fn pending(status: u32) -> (list: Vec<InInterrupt>)
        ensures
            list@ == InInterrupt::set_in(status),
    {
        let all: [InInterrupt; 15] = [
            InInterrupt::XferComplete,
            InInterrupt::EPDisabled,
            InInterrupt::AHBErr,
            InInterrupt::Timeout,
            InInterrupt::InTokenRecv,
            InInterrupt::InTokenEPMis,
            InInterrupt::InNakEffect,
            InInterrupt::TxFifoReady,
            InInterrupt::TxFifoUnder,
            InInterrupt::BuffNotAvail,
            InInterrupt::PacketDrop,
            InInterrupt::BabbleErr,
            InInterrupt::NAK,
            InInterrupt::NYET,
            InInterrupt::SetupRecvd,
        ];
        assert(all@ =~= InInterrupt::all());
        let ghost is_set = |i: InInterrupt| any_set(status, i.mask());
        let mut list: Vec<InInterrupt> = Vec::new();
        let mut k: usize = 0;
        assert(all@.take(0).filter(is_set) =~= Seq::empty()) by {
            reveal(Seq::filter);
        }
        while k < 15
            invariant
                k <= 15,
                is_set == (|i: InInterrupt| any_set(status, i.mask())),
                list@ == all@.take(k as int).filter(is_set),
            decreases 15 - k,
        {
            if status & all[k].bit() != 0 {
                list.push(all[k]);
            }
            k = k + 1;
            assert(all@.take(k as int).drop_last() =~= all@.take(k - 1));
            assert(all@.take(k as int).filter(is_set) =~= list@) by {
                reveal(Seq::filter);
            }
        }
        assert(all@.take(k as int) =~= all@);
        list
    }
}

} // verus!
