//! The controller's registers as the engine sees them, the command dispatcher
//! and the status-flag manager.
use vstd::prelude::*;

verus! {

/// Status bit: the response CRC check failed.
pub const CCRCFAIL: u32 = 1 << 0;
/// Status bit: a data block CRC check failed.
pub const DCRCFAIL: u32 = 1 << 1;
/// Status bit: the controller saw no response to the command.
pub const CTIMEOUT: u32 = 1 << 2;
/// Status bit: data timeout.
pub const DTIMEOUT: u32 = 1 << 3;
/// Status bit: transmit FIFO underrun.
pub const TXUNDERR: u32 = 1 << 4;
/// Status bit: receive FIFO overrun.
pub const RXOVERR: u32 = 1 << 5;
/// Status bit: a response with a good CRC was received.
pub const CMDREND: u32 = 1 << 6;
/// Status bit: the command was sent (no response expected).
pub const CMDSENT: u32 = 1 << 7;
/// Status bit: the data counter reached zero.
pub const DATAEND: u32 = 1 << 8;
/// Status bit: a data block was sent or received with a good CRC.
pub const DBCKEND: u32 = 1 << 10;

/// The ten static (latched) completion bits.
pub const STATIC_FLAGS: u32 = CCRCFAIL | DCRCFAIL | CTIMEOUT | DTIMEOUT | TXUNDERR | RXOVERR
    | CMDREND | CMDSENT | DATAEND | DBCKEND;

/// Response-wait mode field: no response.
pub const WAITRESP_NONE: u8 = 0;
/// Response-wait mode field: short (48-bit) response.
pub const WAITRESP_SHORT: u8 = 1;
/// Response-wait mode field: long (136-bit) response.
pub const WAITRESP_LONG: u8 = 3;

/// The fields of the command register.
#[derive(Clone, Copy, Debug, PartialEq, Eq, Structural)]
pub struct CmdReg {
    pub cmdindex: u8,
    pub waitresp: u8,
    pub cpsmen: bool,
    pub waitint: bool,
}

/// The register file of one controller: what was written to the argument and
/// command registers, the last status read, the clear bits written to the
/// interrupt-clear register since it was last handed to the hardware, and the
/// two response registers.
#[derive(Clone, Copy, Debug, PartialEq, Eq, Structural)]
pub struct Sdmmc {
    pub arg: u32,
    pub cmd: CmdReg,
    pub sta: u32,
    pub icr: u32,
    pub respcmd: u8,
    pub resp1: u32,
}

impl Sdmmc {
    /// The register file after writing `mask` to the write-one-to-clear register.
    pub open spec fn spec_cleared(self, mask: u32) -> Sdmmc {
        Sdmmc { sta: self.sta & !mask, icr: self.icr | mask, ..self }
    }

    /// A register file with every register zero.
    pub fn new() -> (r: Sdmmc)
        ensures
            r.arg == 0 && r.sta == 0 && r.icr == 0 && r.respcmd == 0 && r.resp1 == 0,
            r.cmd == (CmdReg { cmdindex: 0, waitresp: 0, cpsmen: false, waitint: false }),
    {
        Sdmmc {
            arg: 0,
            cmd: CmdReg { cmdindex: 0, waitresp: 0, cpsmen: false, waitint: false },
            sta: 0,
            icr: 0,
            respcmd: 0,
            resp1: 0,
        }
    }

    /// Writes `mask` to the write-one-to-clear register: the status bits in
    /// `mask` read as clear afterwards.
    pub fn clear(&mut self, mask: u32)
        ensures
            *final(self) == old(self).spec_cleared(mask),
    {
        self.icr = self.icr | mask;
        self.sta = self.sta & !mask;
    }
}

/// Issues a command: writes the argument register, then the command register.
pub fn send_cmd(sdmmc: &mut Sdmmc, argument: u32, cmdidx: u8, cpsmen: bool, waitint: bool, waitresp: u8)
    requires
        cmdidx < 64,
        waitresp < 4,
    ensures
        *final(sdmmc) == (Sdmmc {
            arg: argument,
            cmd: CmdReg { cmdindex: cmdidx, waitresp, cpsmen, waitint },
            ..*old(sdmmc)
        }),
{
    sdmmc.arg = argument;
    sdmmc.cmd = CmdReg { cmdindex: cmdidx, waitresp, cpsmen, waitint };
}

/// Clears all ten static status flags in one write.
pub fn clear_all_static_status_flags(sdmmc: &mut Sdmmc)
    ensures
        *final(sdmmc) == old(sdmmc).spec_cleared(STATIC_FLAGS),
        final(sdmmc).sta & STATIC_FLAGS == 0,
{
    sdmmc.clear(STATIC_FLAGS);
    proof {
        lemma_cleared_flags_read_clear(*old(sdmmc), STATIC_FLAGS);
    }
}

/// After a write of `mask` to the clear register, none of its bits reads as set.
pub proof fn lemma_cleared_flags_read_clear(s: Sdmmc, mask: u32)
    ensures
        s.spec_cleared(mask).sta & mask == 0,
{
    let sta = s.sta;
    assert(sta & !mask & mask == 0) by (bit_vector);
}

/// Clearing flags twice in succession is the same as clearing them once.
pub proof fn lemma_clear_idempotent(s: Sdmmc, mask: u32)
    ensures
        s.spec_cleared(mask).spec_cleared(mask) == s.spec_cleared(mask),
{
    let (sta, icr) = (s.sta, s.icr);
    assert(sta & !mask & !mask == sta & !mask) by (bit_vector);
    assert(icr | mask | mask == icr | mask) by (bit_vector);
}

/// Clearing flags when none of them is set changes no status bit.
pub proof fn lemma_clear_without_flags(s: Sdmmc, mask: u32)
    requires
        s.sta & mask == 0,
    ensures
        s.spec_cleared(mask).sta == s.sta,
{
    let sta = s.sta;
    assert(sta & !mask == sta) by (bit_vector)
        requires
            sta & mask == 0,
    ;
}

} // verus!
