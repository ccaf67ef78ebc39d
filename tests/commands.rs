use sdmmc_cmd::catalog::{
    app, app_oper, block_length, idle, oper_cond, read_multi_blk, read_single_blk, sel_desel,
    send_cid, send_csd, set_rel_add, stop_transfer, write_multi_blk, write_single_blk, Decoder,
    Exchange, Reply, CMD_TIMEOUT,
};
use sdmmc_cmd::error::{CardStatus, Error, SdmmcErrorType};
use sdmmc_cmd::regs::{
    clear_all_static_status_flags, send_cmd, CmdReg, Sdmmc, CCRCFAIL, CMDREND, CMDSENT, CTIMEOUT,
    DBCKEND, STATIC_FLAGS,
};

fn crc_failed() -> Error {
    Error::SdmmcError { t: SdmmcErrorType::CmdCrcFailed }
}

#[test]
fn send_cmd_writes_argument_and_command() {
    let mut s = Sdmmc::new();
    send_cmd(&mut s, 0xDEAD_BEEF, 17, true, false, 1);
    assert_eq!(s.arg, 0xDEAD_BEEF);
    assert_eq!(s.cmd, CmdReg { cmdindex: 17, waitresp: 1, cpsmen: true, waitint: false });
    assert_eq!(s.sta, 0);
    assert_eq!(s.icr, 0);
}

#[test]
fn clearing_static_flags_leaves_them_clear() {
    let mut s = Sdmmc::new();
    s.sta = 0xFFFF_FFFF;
    clear_all_static_status_flags(&mut s);
    assert_eq!(STATIC_FLAGS, 0x5FF);
    assert_eq!(s.sta & STATIC_FLAGS, 0);
    assert_eq!(s.sta, 0xFFFF_FA00);
    assert_eq!(s.icr, 0x5FF);
    let once = s;
    clear_all_static_status_flags(&mut s);
    assert_eq!(s, once);
}

#[test]
fn clearing_without_flags_changes_no_status() {
    let mut s = Sdmmc::new();
    s.sta = 0x0020_0200;
    clear_all_static_status_flags(&mut s);
    assert_eq!(s.sta, 0x0020_0200);
}

#[test]
fn idle_succeeds_when_sent_before_deadline() {
    let mut s = Sdmmc::new();
    let x = idle(&mut s, 100, 1000);
    assert_eq!(x, Exchange { decoder: Decoder::Sent, deadline: 1100 });
    assert_eq!(s.cmd, CmdReg { cmdindex: 0, waitresp: 0, cpsmen: true, waitint: false });
    assert_eq!(x.poll(&mut s, 1000), None);
    assert_eq!(x.poll(&mut s, 1050), None);
    s.sta = CMDSENT;
    assert_eq!(x.poll(&mut s, 1099), Some(Ok(Reply::Done)));
}

#[test]
fn idle_times_out_when_never_sent() {
    let mut s = Sdmmc::new();
    let x = idle(&mut s, 100, 1000);
    assert_eq!(x.poll(&mut s, 1099), None);
    assert_eq!(x.poll(&mut s, 1100), Some(Err(Error::Timeout)));
    s.sta = CMDSENT;
    assert_eq!(x.poll(&mut s, 1101), Some(Err(Error::Timeout)));
}

#[test]
fn deadline_wraps_with_the_tick_counter() {
    let mut s = Sdmmc::new();
    let x = app(&mut s, 0, 0xFFFF_FFFF);
    assert_eq!(x.deadline, CMD_TIMEOUT - 1);
}

#[test]
fn app_oper_after_app_reports_response_timeout() {
    let mut s = Sdmmc::new();
    let x = app(&mut s, 0, 10);
    assert_eq!(s.cmd.cmdindex, 55);
    s.sta = CMDREND;
    s.respcmd = 55;
    s.resp1 = 0x0000_0120;
    assert_eq!(x.poll(&mut s, 20), Some(Ok(Reply::Done)));
    assert_eq!(s.sta, 0);

    let y = app_oper(&mut s, 1, 30);
    assert_eq!(s.arg, 0x8010_0001);
    assert_eq!(s.cmd, CmdReg { cmdindex: 41, waitresp: 1, cpsmen: true, waitint: false });
    assert_eq!(y, Exchange { decoder: Decoder::NoCrc, deadline: 5030 });
    assert_eq!(y.poll(&mut s, 40), None);
    s.sta = CTIMEOUT;
    assert_eq!(y.poll(&mut s, 50), Some(Err(Error::SdmmcError { t: SdmmcErrorType::CmdRespTimeout })));
    assert_eq!(s.sta & CTIMEOUT, 0);
    assert_eq!(s.icr & CTIMEOUT, CTIMEOUT);
}

#[test]
fn app_oper_ignores_crc_failure() {
    let mut s = Sdmmc::new();
    let y = app_oper(&mut s, 0x4000_0000, 0);
    assert_eq!(s.arg, 0xC010_0000);
    s.sta = CCRCFAIL;
    assert_eq!(y.poll(&mut s, 1), Some(Ok(Reply::Done)));
    assert_eq!(s.sta, 0);
}

#[test]
fn echo_mismatch_is_crc_failure() {
    for resp1 in [0u32, 0x0000_0900, 0x8000_0000, 0xFFFF_FFFF] {
        let mut s = Sdmmc::new();
        let x = sel_desel(&mut s, 0x1234_0000, 0);
        s.sta = CMDREND;
        s.respcmd = 3;
        s.resp1 = resp1;
        assert_eq!(x.poll(&mut s, 1), Some(Err(crc_failed())));
        // the flags stay for the caller to inspect
        assert_eq!(s.sta, CMDREND);
    }
}

#[test]
fn short_status_crc_failure_clears_crc_flag() {
    let mut s = Sdmmc::new();
    let x = block_length(&mut s, 512, 0);
    assert_eq!(s.arg, 512);
    s.sta = CCRCFAIL | DBCKEND;
    s.respcmd = 16;
    assert_eq!(x.poll(&mut s, 1), Some(Err(crc_failed())));
    assert_eq!(s.sta, DBCKEND);
    assert_eq!(s.icr, CCRCFAIL);
}

#[test]
fn short_status_reports_card_error() {
    let mut s = Sdmmc::new();
    let x = read_single_blk(&mut s, 0x0100_0000, 0);
    assert_eq!(s.cmd.cmdindex, 17);
    s.sta = CMDREND;
    s.respcmd = 17;
    s.resp1 = 0x8000_0900;
    assert_eq!(x.poll(&mut s, 4999), Some(Err(Error::CardError { t: CardStatus::AddressOutOfRange })));
    assert_eq!(s.sta, 0);
}

#[test]
fn short_status_times_out_at_deadline() {
    let mut s = Sdmmc::new();
    let x = write_single_blk(&mut s, 7, 100);
    assert_eq!(x.poll(&mut s, 5099), None);
    assert_eq!(x.poll(&mut s, 5100), Some(Err(Error::Timeout)));
}

#[test]
fn block_commands_use_their_indices() {
    let mut s = Sdmmc::new();
    assert_eq!(write_multi_blk(&mut s, 9, 0).decoder, Decoder::Status(25));
    assert_eq!(s.cmd.cmdindex, 25);
    assert_eq!(read_multi_blk(&mut s, 9, 0).decoder, Decoder::Status(18));
    assert_eq!(s.cmd.cmdindex, 18);
    assert_eq!(stop_transfer(&mut s, 0).decoder, Decoder::Status(12));
    assert_eq!(s.cmd.cmdindex, 12);
    assert_eq!(s.arg, 0);
}

#[test]
fn set_rel_add_returns_rca() {
    let mut s = Sdmmc::new();
    let x = set_rel_add(&mut s, 0);
    assert_eq!(x.decoder, Decoder::Address(3));
    s.sta = CMDREND;
    s.respcmd = 3;
    s.resp1 = 0x0001_0203;
    assert_eq!(x.poll(&mut s, 1), Some(Ok(Reply::Rca(0x0001))));
    assert_eq!(s.sta, 0);
}

#[test]
fn set_rel_add_reports_r6_error() {
    let mut s = Sdmmc::new();
    let x = set_rel_add(&mut s, 0);
    s.sta = CMDREND;
    s.respcmd = 3;
    s.resp1 = 0x1234_4000;
    assert_eq!(x.poll(&mut s, 1), Some(Err(Error::CardError { t: CardStatus::R6IllegalCommand })));
}

#[test]
fn long_id_commands() {
    let mut s = Sdmmc::new();
    let x = send_cid(&mut s, 0);
    assert_eq!(s.cmd, CmdReg { cmdindex: 2, waitresp: 3, cpsmen: true, waitint: false });
    s.sta = CMDREND | DBCKEND;
    assert_eq!(x.poll(&mut s, 1), Some(Ok(Reply::Done)));
    assert_eq!(s.sta, 0);

    let y = send_csd(&mut s, 0x0001_0000, 0);
    assert_eq!(s.arg, 0x0001_0000);
    assert_eq!(s.cmd.cmdindex, 9);
    s.sta = CCRCFAIL;
    assert_eq!(y.poll(&mut s, 1), Some(Err(crc_failed())));
    assert_eq!(s.sta, 0);
}

#[test]
fn oper_cond_clears_only_response_flag() {
    let mut s = Sdmmc::new();
    let x = oper_cond(&mut s, 0);
    assert_eq!(s.arg, 0x1AA);
    assert_eq!(s.cmd.cmdindex, 8);
    s.sta = CMDREND | CMDSENT;
    assert_eq!(x.poll(&mut s, 1), Some(Ok(Reply::Done)));
    assert_eq!(s.sta, CMDSENT);
    assert_eq!(s.icr, CMDREND);
}
