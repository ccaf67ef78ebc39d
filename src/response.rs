//! The response wait engine and the response decoders.
//!
//! Each function here makes the decision for one poll of the controller: given
//! the registers just read and the current tick, it answers `None` while the
//! exchange is still in progress, or the exchange's result, and applies the
//! status clears that the decision calls for to the register file.
use vstd::prelude::*;
use crate::card_status::{card_error_of, check_for_errors, check_r6_status, r6_result};
use crate::error::{Error, SdmmcErrorType};
use crate::regs::{clear_all_static_status_flags, lemma_cleared_flags_read_clear, Sdmmc, CCRCFAIL, CMDREND, CMDSENT, CTIMEOUT, STATIC_FLAGS};

verus! {

/// The status bits that end a wait for a response.
pub const RESP_DONE: u32 = CMDREND | CCRCFAIL | CTIMEOUT;

pub open spec fn crc_failed() -> Error {
    Error::SdmmcError { t: SdmmcErrorType::CmdCrcFailed }
}

pub open spec fn resp_timeout() -> Error {
    Error::SdmmcError { t: SdmmcErrorType::CmdRespTimeout }
}

/// The result of one poll of a command that expects no response.
pub open spec fn sent_outcome(sta: u32, now: u32, deadline: u32) -> Option<Result<(), Error>> {
    if now >= deadline {
        Some(Err(Error::Timeout))
    } else if sta & CMDSENT != 0 {
        Some(Ok(()))
    } else {
        None
    }
}

/// The result of one poll of the basic wait for a response.
pub open spec fn wait_outcome(sta: u32, now: u32, deadline: u32) -> Option<Result<(), Error>> {
    if now >= deadline {
        Some(Err(Error::Timeout))
    } else if sta & RESP_DONE == 0 {
        None
    } else if sta & CTIMEOUT != 0 {
        Some(Err(resp_timeout()))
    } else {
        Some(Ok(()))
    }
}

/// The registers after one poll of the basic wait: the hardware-timeout bit is
/// cleared when it is what ended the wait.
pub open spec fn wait_effect(s: Sdmmc, now: u32, deadline: u32) -> Sdmmc {
    if wait_outcome(s.sta, now, deadline) == Some(Err::<(), Error>(resp_timeout())) {
        s.spec_cleared(CTIMEOUT)
    } else {
        s
    }
}

/// The result of one poll of the wait with CRC check.
pub open spec fn wait_crc_outcome(sta: u32, now: u32, deadline: u32) -> Option<Result<(), Error>> {
    if wait_outcome(sta, now, deadline) == Some(Ok::<(), Error>(())) && sta & CCRCFAIL != 0 {
        Some(Err(crc_failed()))
    } else {
        wait_outcome(sta, now, deadline)
    }
}

/// The registers after one poll of the wait with CRC check.
pub open spec fn wait_crc_effect(s: Sdmmc, now: u32, deadline: u32) -> Sdmmc {
    if wait_outcome(s.sta, now, deadline) == Some(Ok::<(), Error>(())) && s.sta & CCRCFAIL != 0 {
        s.spec_cleared(CCRCFAIL)
    } else {
        wait_effect(s, now, deadline)
    }
}

/// The card-status check of a short response, as a result.
pub open spec fn card_result(card_status: u32) -> Result<(), Error> {
    match card_error_of(card_status) {
        None => Ok(()),
        Some(t) => Err(Error::CardError { t }),
    }
}

/// The result of one poll of a short-status (R1) exchange for command `idx`.
pub open spec fn r1_outcome(s: Sdmmc, idx: u8, now: u32, deadline: u32) -> Option<Result<(), Error>> {
    if wait_crc_outcome(s.sta, now, deadline) == Some(Ok::<(), Error>(())) {
        if s.respcmd != idx {
            Some(Err(crc_failed()))
        } else {
            Some(card_result(s.resp1))
        }
    } else {
        wait_crc_outcome(s.sta, now, deadline)
    }
}

/// The result of one poll of a relative-address (R6) exchange for command `idx`.
pub open spec fn r6_outcome(s: Sdmmc, idx: u8, now: u32, deadline: u32) -> Option<Result<u16, Error>> {
    match wait_crc_outcome(s.sta, now, deadline) {
        Some(Ok(())) => if s.respcmd != idx {
            Some(Err(crc_failed()))
        } else {
            match r6_result(s.resp1) {
                Ok(rca) => Some(Ok(rca)),
                Err(t) => Some(Err(Error::CardError { t })),
            }
        },
        Some(Err(e)) => Some(Err(e)),
        None => None,
    }
}

/// The registers after one poll of an exchange that checks the CRC and the
/// echoed index: all static flags are cleared once both checks pass.
pub open spec fn echo_checked_effect(s: Sdmmc, idx: u8, now: u32, deadline: u32) -> Sdmmc {
    if wait_crc_outcome(s.sta, now, deadline) == Some(Ok::<(), Error>(())) && s.respcmd == idx {
        s.spec_cleared(STATIC_FLAGS)
    } else {
        wait_crc_effect(s, now, deadline)
    }
}

/// The registers after one poll of a long-ID (R2) exchange.
pub open spec fn r2_effect(s: Sdmmc, now: u32, deadline: u32) -> Sdmmc {
    if wait_crc_outcome(s.sta, now, deadline) == Some(Ok::<(), Error>(())) {
        s.spec_cleared(STATIC_FLAGS)
    } else {
        wait_crc_effect(s, now, deadline)
    }
}

/// The registers after one poll of a no-payload (R3) exchange.
pub open spec fn r3_effect(s: Sdmmc, now: u32, deadline: u32) -> Sdmmc {
    if wait_outcome(s.sta, now, deadline) == Some(Ok::<(), Error>(())) {
        s.spec_cleared(STATIC_FLAGS)
    } else {
        wait_effect(s, now, deadline)
    }
}

/// The registers after one poll of the interface-condition (CMD8) exchange:
/// only the response-received flag is cleared on success.
pub open spec fn cond_effect(s: Sdmmc, now: u32, deadline: u32) -> Sdmmc {
    if wait_outcome(s.sta, now, deadline) == Some(Ok::<(), Error>(())) {
        s.spec_cleared(CMDREND)
    } else {
        wait_effect(s, now, deadline)
    }
}

/// One poll of a command that expects no response: done once the command-sent
/// flag is seen before the deadline.
pub fn wait_sent(sdmmc: &Sdmmc, now: u32, deadline: u32) -> (r: Option<Result<(), Error>>)
    ensures
        r == sent_outcome(sdmmc.sta, now, deadline),
{
    if now >= deadline {
        Some(Err(Error::Timeout))
    } else if sdmmc.sta & CMDSENT != 0 {
        Some(Ok(()))
    } else {
        None
    }
}

/// One poll of the basic wait for a response.
pub fn wait_resp(sdmmc: &mut Sdmmc, now: u32, deadline: u32) -> (r: Option<Result<(), Error>>)
    ensures
        r == wait_outcome(old(sdmmc).sta, now, deadline),
        *final(sdmmc) == wait_effect(*old(sdmmc), now, deadline),
{
    if now >= deadline {
        return Some(Err(Error::Timeout));
    }
    if sdmmc.sta & RESP_DONE == 0 {
        return None;
    }
    if sdmmc.sta & CTIMEOUT != 0 {
        sdmmc.clear(CTIMEOUT);
        return Some(Err(Error::SdmmcError { t: SdmmcErrorType::CmdRespTimeout }));
    }
    Some(Ok(()))
}

/// One poll of the wait with CRC check.
pub fn wait_resp_crc(sdmmc: &mut Sdmmc, now: u32, deadline: u32) -> (r: Option<Result<(), Error>>)
    ensures
        r == wait_crc_outcome(old(sdmmc).sta, now, deadline),
        *final(sdmmc) == wait_crc_effect(*old(sdmmc), now, deadline),
{
    match wait_resp(sdmmc, now, deadline) {
        Some(Ok(())) => {
            if sdmmc.sta & CCRCFAIL != 0 {
                sdmmc.clear(CCRCFAIL);
                Some(Err(Error::SdmmcError { t: SdmmcErrorType::CmdCrcFailed }))
            } else {
                Some(Ok(()))
            }
        },
        other => other,
    }
}

/// One poll of a short-status (R1) exchange for command `cmd_idx`.
pub fn get_cmd_resp1(sdmmc: &mut Sdmmc, cmd_idx: u8, now: u32, deadline: u32) -> (r: Option<Result<(), Error>>)
    ensures
        r == r1_outcome(*old(sdmmc), cmd_idx, now, deadline),
        *final(sdmmc) == echo_checked_effect(*old(sdmmc), cmd_idx, now, deadline),
{
    match wait_resp_crc(sdmmc, now, deadline) {
        Some(Ok(())) => {},
        other => return other,
    }
    if sdmmc.respcmd != cmd_idx {
        return Some(Err(Error::SdmmcError { t: SdmmcErrorType::CmdCrcFailed }));
    }
    clear_all_static_status_flags(sdmmc);
    Some(check_for_errors(sdmmc.resp1))
}

/// One poll of a long-ID (R2) exchange.
pub fn get_cmd_resp2(sdmmc: &mut Sdmmc, now: u32, deadline: u32) -> (r: Option<Result<(), Error>>)
    ensures
        r == wait_crc_outcome(old(sdmmc).sta, now, deadline),
        *final(sdmmc) == r2_effect(*old(sdmmc), now, deadline),
{
    let r = wait_resp_crc(sdmmc, now, deadline);
    if let Some(Ok(())) = r {
        clear_all_static_status_flags(sdmmc);
    }
    r
}

/// One poll of a no-payload (R3) exchange: the response carries no CRC, so
/// none is checked.
pub fn get_cmd_resp3(sdmmc: &mut Sdmmc, now: u32, deadline: u32) -> (r: Option<Result<(), Error>>)
    ensures
        r == wait_outcome(old(sdmmc).sta, now, deadline),
        *final(sdmmc) == r3_effect(*old(sdmmc), now, deadline),
{
    let r = wait_resp(sdmmc, now, deadline);
    if let Some(Ok(())) = r {
        clear_all_static_status_flags(sdmmc);
    }
    r
}

/// One poll of a relative-address (R6) exchange for command `cmd_idx`.
pub fn get_cmd_resp6(sdmmc: &mut Sdmmc, cmd_idx: u8, now: u32, deadline: u32) -> (r: Option<Result<u16, Error>>)
    ensures
        r == r6_outcome(*old(sdmmc), cmd_idx, now, deadline),
        *final(sdmmc) == echo_checked_effect(*old(sdmmc), cmd_idx, now, deadline),
{
    match wait_resp_crc(sdmmc, now, deadline) {
        Some(Ok(())) => {},
        Some(Err(e)) => return Some(Err(e)),
        None => return None,
    }
    if sdmmc.respcmd != cmd_idx {
        return Some(Err(Error::SdmmcError { t: SdmmcErrorType::CmdCrcFailed }));
    }
    clear_all_static_status_flags(sdmmc);
    Some(check_r6_status(sdmmc.resp1))
}

/// One poll of the interface-condition (CMD8) exchange.
pub fn get_cmd_resp7(sdmmc: &mut Sdmmc, now: u32, deadline: u32) -> (r: Option<Result<(), Error>>)
    ensures
        r == wait_outcome(old(sdmmc).sta, now, deadline),
        *final(sdmmc) == cond_effect(*old(sdmmc), now, deadline),
{
    let r = wait_resp(sdmmc, now, deadline);
    if let Some(Ok(())) = r {
        sdmmc.clear(CMDREND);
    }
    r
}

/// The result of a run of polls of a command that expects no response: each
/// poll is a tick and the status read at that tick, and the run stops at the
/// first poll that decides.
pub open spec fn sent_run_outcome(polls: Seq<(u32, u32)>, deadline: u32) -> Option<Result<(), Error>>
    decreases polls.len(),
{
    if polls.len() == 0 {
        None
    } else {
        match sent_outcome(polls[0].1, polls[0].0, deadline) {
            Some(r) => Some(r),
            None => sent_run_outcome(polls.drop_first(), deadline),
        }
    }
}

/// A command that expects no response fails with `Timeout` when the
/// command-sent flag is never seen before the deadline and a poll at or after
/// the deadline is made.
pub proof fn lemma_sent_never_seen_times_out(polls: Seq<(u32, u32)>, deadline: u32, k: int)
    requires
        0 <= k < polls.len(),
        polls[k].0 >= deadline,
        forall|i: int| 0 <= i < polls.len() && polls[i].0 < deadline ==> #[trigger] polls[i].1 & CMDSENT == 0,
    ensures
        sent_run_outcome(polls, deadline) == Some(Err::<(), Error>(Error::Timeout)),
    decreases polls.len(),
{
    if polls[0].0 < deadline {
        assert(polls[0].1 & CMDSENT == 0);
        let rest = polls.drop_first();
        assert forall|i: int| 0 <= i < rest.len() && rest[i].0 < deadline implies #[trigger] rest[i].1 & CMDSENT == 0 by {
            assert(rest[i] == polls[i + 1]);
        }
        assert(rest[k - 1] == polls[k]);
        lemma_sent_never_seen_times_out(rest, deadline, k - 1);
    }
}

/// A command that expects no response succeeds when the command-sent flag is
/// seen at a poll before the deadline, all earlier polls having been made
/// before the deadline too.
pub proof fn lemma_sent_seen_succeeds(polls: Seq<(u32, u32)>, deadline: u32, k: int)
    requires
        0 <= k < polls.len(),
        polls[k].1 & CMDSENT != 0,
        forall|i: int| 0 <= i <= k ==> #[trigger] polls[i].0 < deadline,
    ensures
        sent_run_outcome(polls, deadline) == Some(Ok::<(), Error>(())),
    decreases polls.len(),
{
    assert(polls[0].0 < deadline);
    if polls[0].1 & CMDSENT == 0 {
        let rest = polls.drop_first();
        assert forall|i: int| 0 <= i <= k - 1 implies #[trigger] rest[i].0 < deadline by {
            assert(rest[i] == polls[i + 1]);
        }
        assert(rest[k - 1] == polls[k]);
        lemma_sent_seen_succeeds(rest, deadline, k - 1);
    }
}

/// Once a response has arrived with a good CRC, a short-status or
/// relative-address exchange whose echoed command index differs from the one
/// issued fails with a CRC error, whatever the card-status field holds.
pub proof fn lemma_echo_mismatch_is_crc_failure(s: Sdmmc, idx: u8, now: u32, deadline: u32)
    requires
        wait_crc_outcome(s.sta, now, deadline) == Some(Ok::<(), Error>(())),
        s.respcmd != idx,
    ensures
        forall|card_status: u32|
            #[trigger] r1_outcome(Sdmmc { resp1: card_status, ..s }, idx, now, deadline)
                == Some(Err::<(), Error>(crc_failed())),
        forall|card_status: u32|
            #[trigger] r6_outcome(Sdmmc { resp1: card_status, ..s }, idx, now, deadline)
                == Some(Err::<u16, Error>(crc_failed())),
{
}

/// When the controller's no-response bit is set before the deadline, the wait
/// for a response fails with `CmdRespTimeout` and leaves that bit clear.
pub proof fn lemma_resp_timeout_clears_flag(s: Sdmmc, now: u32, deadline: u32)
    requires
        now < deadline,
        s.sta & CTIMEOUT != 0,
    ensures
        wait_outcome(s.sta, now, deadline) == Some(Err::<(), Error>(resp_timeout())),
        wait_effect(s, now, deadline).sta & CTIMEOUT == 0,
        r3_effect(s, now, deadline).sta & CTIMEOUT == 0,
{
    let sta = s.sta;
    assert(sta & (CMDREND | CCRCFAIL | CTIMEOUT) != 0) by (bit_vector)
        requires
            sta & CTIMEOUT != 0,
    ;
    lemma_cleared_flags_read_clear(s, CTIMEOUT);
}

} // verus!
