//! The command catalog: each command is a fixed pairing of argument, command
//! index, response-wait mode and decoder, issued by one generic routine.
//!
//! Issuing a command writes the argument and command registers and hands back
//! an [`Exchange`]. The caller then reads the controller's registers into the
//! register file and calls [`Exchange::poll`] with the current tick until it
//! answers with a result, writing back the clear bits it accumulates.
use vstd::prelude::*;
use crate::error::Error;
use crate::regs::{send_cmd, CmdReg, Sdmmc, WAITRESP_LONG, WAITRESP_NONE, WAITRESP_SHORT};
use crate::response::{
    cond_effect, echo_checked_effect, get_cmd_resp1, get_cmd_resp2, get_cmd_resp3, get_cmd_resp6,
    get_cmd_resp7, r1_outcome, r2_effect, r3_effect, r6_outcome, sent_outcome, wait_crc_outcome,
    wait_outcome, wait_sent,
};

verus! {

/// Ticks allowed for the response of every response-bearing command.
pub const CMD_TIMEOUT: u32 = 5000;

/// Argument bits of ACMD41 besides the capacity bit: busy and the 3.2-3.3 V window.
pub const APP_OPER_ARG: u32 = 0x8010_0000;

/// Argument of CMD8: supply voltage 2.7-3.6 V and the check pattern.
pub const OPER_COND_ARG: u32 = 0x1AA;

/// How the reply of an issued command is decoded.
#[derive(Clone, Copy, Debug, PartialEq, Eq, Structural)]
pub enum Decoder {
    /// No response: done when the command-sent flag is seen.
    Sent,
    /// Short card-status response (R1) to the given command index.
    Status(u8),
    /// Long CID/CSD response (R2).
    LongId,
    /// Operation-condition response without CRC (R3).
    NoCrc,
    /// Relative-address response (R6) to the given command index.
    Address(u8),
    /// Interface-condition response (CMD8).
    Condition,
}

/// A command in flight: how to decode its reply and the tick at which waiting
/// for it stops.
#[derive(Clone, Copy, Debug, PartialEq, Eq, Structural)]
pub struct Exchange {
    pub decoder: Decoder,
    pub deadline: u32,
}

/// What a completed exchange returns.
#[derive(Clone, Copy, Debug, PartialEq, Eq, Structural)]
pub enum Reply {
    Done,
    /// The relative card address assigned by CMD3.
    Rca(u16),
}

/// The tick `timeout` ticks after `now`, on the wrapping 32-bit tick counter.
pub open spec fn deadline_after(now: u32, timeout: u32) -> u32 {
    ((now as int + timeout as int) % 0x1_0000_0000) as u32
}

/// The register file after a command has been issued with the command-path
/// state machine enabled and no wait for interrupt.
pub open spec fn issued(s: Sdmmc, argument: u32, cmdidx: u8, waitresp: u8) -> Sdmmc {
    Sdmmc { arg: argument, cmd: CmdReg { cmdindex: cmdidx, waitresp, cpsmen: true, waitint: false }, ..s }
}

pub open spec fn as_reply(o: Option<Result<(), Error>>) -> Option<Result<Reply, Error>> {
    match o {
        None => None,
        Some(Ok(())) => Some(Ok(Reply::Done)),
        Some(Err(e)) => Some(Err(e)),
    }
}

fn to_reply(o: Option<Result<(), Error>>) -> (r: Option<Result<Reply, Error>>)
    ensures
        r == as_reply(o),
{
    match o {
        None => None,
        Some(Ok(())) => Some(Ok(Reply::Done)),
        Some(Err(e)) => Some(Err(e)),
    }
}

impl Exchange {
    /// The result of one poll of this exchange with registers `s` at tick `now`.
    pub open spec fn spec_poll_outcome(self, s: Sdmmc, now: u32) -> Option<Result<Reply, Error>> {
        match self.decoder {
            Decoder::Sent => as_reply(sent_outcome(s.sta, now, self.deadline)),
            Decoder::Status(idx) => as_reply(r1_outcome(s, idx, now, self.deadline)),
            Decoder::LongId => as_reply(wait_crc_outcome(s.sta, now, self.deadline)),
            Decoder::NoCrc => as_reply(wait_outcome(s.sta, now, self.deadline)),
            Decoder::Address(idx) => match r6_outcome(s, idx, now, self.deadline) {
                None => None,
                Some(Ok(rca)) => Some(Ok(Reply::Rca(rca))),
                Some(Err(e)) => Some(Err(e)),
            },
            Decoder::Condition => as_reply(wait_outcome(s.sta, now, self.deadline)),
        }
    }

    /// The registers after one poll of this exchange with registers `s` at tick `now`.
    pub open spec fn spec_poll_effect(self, s: Sdmmc, now: u32) -> Sdmmc {
        match self.decoder {
            Decoder::Sent => s,
            Decoder::Status(idx) => echo_checked_effect(s, idx, now, self.deadline),
            Decoder::LongId => r2_effect(s, now, self.deadline),
            Decoder::NoCrc => r3_effect(s, now, self.deadline),
            Decoder::Address(idx) => echo_checked_effect(s, idx, now, self.deadline),
            Decoder::Condition => cond_effect(s, now, self.deadline),
        }
    }

    /// Decides one poll of this exchange: `None` while it is still in
    /// progress, else its result.
    pub fn poll(&self, sdmmc: &mut Sdmmc, now: u32) -> (r: Option<Result<Reply, Error>>)
        ensures
            r == self.spec_poll_outcome(*old(sdmmc), now),
            *final(sdmmc) == self.spec_poll_effect(*old(sdmmc), now),
    {
        match self.decoder {
            Decoder::Sent => to_reply(wait_sent(sdmmc, now, self.deadline)),
            Decoder::Status(idx) => to_reply(get_cmd_resp1(sdmmc, idx, now, self.deadline)),
            Decoder::LongId => to_reply(get_cmd_resp2(sdmmc, now, self.deadline)),
            Decoder::NoCrc => to_reply(get_cmd_resp3(sdmmc, now, self.deadline)),
            Decoder::Address(idx) => match get_cmd_resp6(sdmmc, idx, now, self.deadline) {
                None => None,
                Some(Ok(rca)) => Some(Ok(Reply::Rca(rca))),
                Some(Err(e)) => Some(Err(e)),
            },
            Decoder::Condition => to_reply(get_cmd_resp7(sdmmc, now, self.deadline)),
        }
    }
}

/// Issues a command and starts its exchange: the deadline is captured once,
/// `timeout` ticks after `now`.
pub fn issue(sdmmc: &mut Sdmmc, argument: u32, cmdidx: u8, waitresp: u8, decoder: Decoder, timeout: u32, now: u32) -> (x: Exchange)
    requires
        cmdidx < 64,
        waitresp < 4,
    ensures
        *final(sdmmc) == issued(*old(sdmmc), argument, cmdidx, waitresp),
        x == (Exchange { decoder, deadline: deadline_after(now, timeout) }),
{
    send_cmd(sdmmc, argument, cmdidx, true, false, waitresp);
    Exchange { decoder, deadline: now.wrapping_add(timeout) }
}

// Initialization commands

/// CMD0: puts the card into the idle state; no response is expected, so the
/// exchange ends when the command has been sent.
pub fn idle(sdmmc: &mut Sdmmc, timeout: u32, now: u32) -> (x: Exchange)
    ensures
        *final(sdmmc) == issued(*old(sdmmc), 0, 0, WAITRESP_NONE),
        x == (Exchange { decoder: Decoder::Sent, deadline: deadline_after(now, timeout) }),
{
    issue(sdmmc, 0, 0, WAITRESP_NONE, Decoder::Sent, timeout, now)
}

/// CMD55: announces that the next command is an application command.
pub fn app(sdmmc: &mut Sdmmc, argument: u32, now: u32) -> (x: Exchange)
    ensures
        *final(sdmmc) == issued(*old(sdmmc), argument, 55, WAITRESP_SHORT),
        x == (Exchange { decoder: Decoder::Status(55), deadline: deadline_after(now, CMD_TIMEOUT) }),
{
    issue(sdmmc, argument, 55, WAITRESP_SHORT, Decoder::Status(55), CMD_TIMEOUT, now)
}

/// ACMD41: asks for the operation condition register, with the capacity bits
/// or-ed into the argument. CMD55 must be sent first.
pub fn app_oper(sdmmc: &mut Sdmmc, capacity: u32, now: u32) -> (x: Exchange)
    ensures
        *final(sdmmc) == issued(*old(sdmmc), APP_OPER_ARG | capacity, 41, WAITRESP_SHORT),
        x == (Exchange { decoder: Decoder::NoCrc, deadline: deadline_after(now, CMD_TIMEOUT) }),
{
    issue(sdmmc, APP_OPER_ARG | capacity, 41, WAITRESP_SHORT, Decoder::NoCrc, CMD_TIMEOUT, now)
}

/// CMD8: asks for the interface condition. Only version 2 cards answer, so
/// the outcome tells the card's version.
pub fn oper_cond(sdmmc: &mut Sdmmc, now: u32) -> (x: Exchange)
    ensures
        *final(sdmmc) == issued(*old(sdmmc), OPER_COND_ARG, 8, WAITRESP_SHORT),
        x == (Exchange { decoder: Decoder::Condition, deadline: deadline_after(now, CMD_TIMEOUT) }),
{
    issue(sdmmc, OPER_COND_ARG, 8, WAITRESP_SHORT, Decoder::Condition, CMD_TIMEOUT, now)
}

/// CMD2: asks for the card identification number (CID).
pub fn send_cid(sdmmc: &mut Sdmmc, now: u32) -> (x: Exchange)
    ensures
        *final(sdmmc) == issued(*old(sdmmc), 0, 2, WAITRESP_LONG),
        x == (Exchange { decoder: Decoder::LongId, deadline: deadline_after(now, CMD_TIMEOUT) }),
{
    issue(sdmmc, 0, 2, WAITRESP_LONG, Decoder::LongId, CMD_TIMEOUT, now)
}

/// CMD3: asks the card for its relative card address (RCA); the exchange
/// replies with `Reply::Rca`.
pub fn set_rel_add(sdmmc: &mut Sdmmc, now: u32) -> (x: Exchange)
    ensures
        *final(sdmmc) == issued(*old(sdmmc), 0, 3, WAITRESP_SHORT),
        x == (Exchange { decoder: Decoder::Address(3), deadline: deadline_after(now, CMD_TIMEOUT) }),
{
    issue(sdmmc, 0, 3, WAITRESP_SHORT, Decoder::Address(3), CMD_TIMEOUT, now)
}

/// CMD9: asks for the card-specific data (CSD). `rca` carries the card's
/// address in its upper half-word.
pub fn send_csd(sdmmc: &mut Sdmmc, rca: u32, now: u32) -> (x: Exchange)
    ensures
        *final(sdmmc) == issued(*old(sdmmc), rca, 9, WAITRESP_LONG),
        x == (Exchange { decoder: Decoder::LongId, deadline: deadline_after(now, CMD_TIMEOUT) }),
{
    issue(sdmmc, rca, 9, WAITRESP_LONG, Decoder::LongId, CMD_TIMEOUT, now)
}

/// CMD7: selects the card with the address in the upper half-word of `rca`,
/// deselecting the others.
pub fn sel_desel(sdmmc: &mut Sdmmc, rca: u32, now: u32) -> (x: Exchange)
    ensures
        *final(sdmmc) == issued(*old(sdmmc), rca, 7, WAITRESP_SHORT),
        x == (Exchange { decoder: Decoder::Status(7), deadline: deadline_after(now, CMD_TIMEOUT) }),
{
    issue(sdmmc, rca, 7, WAITRESP_SHORT, Decoder::Status(7), CMD_TIMEOUT, now)
}

// Read/write commands

/// CMD16: sets the length of the blocks to read or write.
pub fn block_length(sdmmc: &mut Sdmmc, block_size: u32, now: u32) -> (x: Exchange)
    ensures
        *final(sdmmc) == issued(*old(sdmmc), block_size, 16, WAITRESP_SHORT),
        x == (Exchange { decoder: Decoder::Status(16), deadline: deadline_after(now, CMD_TIMEOUT) }),
{
    issue(sdmmc, block_size, 16, WAITRESP_SHORT, Decoder::Status(16), CMD_TIMEOUT, now)
}

/// CMD24: announces that a single block will be written.
pub fn write_single_blk(sdmmc: &mut Sdmmc, block_add: u32, now: u32) -> (x: Exchange)
    ensures
        *final(sdmmc) == issued(*old(sdmmc), block_add, 24, WAITRESP_SHORT),
        x == (Exchange { decoder: Decoder::Status(24), deadline: deadline_after(now, CMD_TIMEOUT) }),
{
    issue(sdmmc, block_add, 24, WAITRESP_SHORT, Decoder::Status(24), CMD_TIMEOUT, now)
}

/// CMD25: announces that several blocks will be written, until
/// `stop_transfer`. Not yet confirmed to work on hardware.
pub fn write_multi_blk(sdmmc: &mut Sdmmc, block_add: u32, now: u32) -> (x: Exchange)
    ensures
        *final(sdmmc) == issued(*old(sdmmc), block_add, 25, WAITRESP_SHORT),
        x == (Exchange { decoder: Decoder::Status(25), deadline: deadline_after(now, CMD_TIMEOUT) }),
{
    issue(sdmmc, block_add, 25, WAITRESP_SHORT, Decoder::Status(25), CMD_TIMEOUT, now)
}

/// CMD17: announces that a single block will be read.
pub fn read_single_blk(sdmmc: &mut Sdmmc, block_add: u32, now: u32) -> (x: Exchange)
    ensures
        *final(sdmmc) == issued(*old(sdmmc), block_add, 17, WAITRESP_SHORT),
        x == (Exchange { decoder: Decoder::Status(17), deadline: deadline_after(now, CMD_TIMEOUT) }),
{
    issue(sdmmc, block_add, 17, WAITRESP_SHORT, Decoder::Status(17), CMD_TIMEOUT, now)
}

/// CMD18: announces that several blocks will be read, until
/// `stop_transfer`. Not yet confirmed to work on hardware.
pub fn read_multi_blk(sdmmc: &mut Sdmmc, block_add: u32, now: u32) -> (x: Exchange)
    ensures
        *final(sdmmc) == issued(*old(sdmmc), block_add, 18, WAITRESP_SHORT),
        x == (Exchange { decoder: Decoder::Status(18), deadline: deadline_after(now, CMD_TIMEOUT) }),
{
    issue(sdmmc, block_add, 18, WAITRESP_SHORT, Decoder::Status(18), CMD_TIMEOUT, now)
}

/// CMD12: ends a multi-block read or write.
pub fn stop_transfer(sdmmc: &mut Sdmmc, now: u32) -> (x: Exchange)
    ensures
        *final(sdmmc) == issued(*old(sdmmc), 0, 12, WAITRESP_SHORT),
        x == (Exchange { decoder: Decoder::Status(12), deadline: deadline_after(now, CMD_TIMEOUT) }),
{
    issue(sdmmc, 0, 12, WAITRESP_SHORT, Decoder::Status(12), CMD_TIMEOUT, now)
}

} // verus!
