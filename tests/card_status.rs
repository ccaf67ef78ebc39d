use sdmmc_cmd::card_status::{check_for_errors, check_r6_status, classified_at, NUM_CLASSIFIED, OCR_ERROR_BITS};
use sdmmc_cmd::error::{CardStatus, Error};

#[test]
fn clean_status_word_is_ok() {
    assert_eq!(check_for_errors(0), Ok(()));
    // ready-for-data and current-state bits are no errors
    assert_eq!(check_for_errors(0x0000_0900), Ok(()));
}

#[test]
fn each_listed_bit_reports_its_condition() {
    for i in 0..NUM_CLASSIFIED {
        let t = classified_at(i);
        assert_eq!(check_for_errors(t.bits()), Err(Error::CardError { t }));
        assert_eq!(t.bits() & OCR_ERROR_BITS, t.bits());
    }
}

#[test]
fn illegal_command_wins_over_block_length_error() {
    let s = CardStatus::IllegalCommand.bits() | CardStatus::BlockLenError.bits();
    assert_eq!(s, 0x2040_0000);
    assert_eq!(check_for_errors(s), Err(Error::CardError { t: CardStatus::IllegalCommand }));
}

#[test]
fn earlier_entry_wins_for_every_pair() {
    for i in 0..NUM_CLASSIFIED {
        for j in (i + 1)..NUM_CLASSIFIED {
            let s = classified_at(i).bits() | classified_at(j).bits();
            assert_eq!(check_for_errors(s), Err(Error::CardError { t: classified_at(i) }));
        }
    }
}

#[test]
fn all_error_bits_report_first_entry() {
    assert_eq!(check_for_errors(0xFFFF_FFFF), Err(Error::CardError { t: CardStatus::AkeSeqError }));
}

#[test]
fn unnamed_error_bit_reports_general_error() {
    assert_eq!(check_for_errors(0x0008_0000), Err(Error::CardError { t: CardStatus::Error }));
    assert_eq!(check_for_errors(0x0004_0000), Err(Error::CardError { t: CardStatus::Error }));
    assert_eq!(check_for_errors(0x0002_0000), Err(Error::CardError { t: CardStatus::Error }));
}

#[test]
fn r6_status_gives_upper_half_word() {
    assert_eq!(check_r6_status(0x0001_0203), Ok(0x0001));
    assert_eq!(check_r6_status(0xABCD_1F00), Ok(0xABCD));
}

#[test]
fn r6_status_errors_in_order() {
    assert_eq!(check_r6_status(0x0001_E000), Err(Error::CardError { t: CardStatus::R6CrcFailed }));
    assert_eq!(check_r6_status(0x0000_8000), Err(Error::CardError { t: CardStatus::R6CrcFailed }));
    assert_eq!(check_r6_status(0x0000_6000), Err(Error::CardError { t: CardStatus::R6IllegalCommand }));
    assert_eq!(check_r6_status(0x0000_2000), Err(Error::CardError { t: CardStatus::R6GeneralUnknownError }));
}
