//! Classification of the 32-bit card-status word into a single prioritised error.
use vstd::prelude::*;
use crate::error::{CardStatus, Error};

verus! {

/// Every bit of the card-status word that signals an error.
pub const OCR_ERROR_BITS: u32 = 0xFDFF_E008;

/// Bits of the status field of a CMD3 (R6) response that disqualify the address.
pub const R6_ERROR_BITS: u32 = 0xE000;

/// Number of named entries in the classifier's priority list.
pub const NUM_CLASSIFIED: usize = 16;

impl CardStatus {
    /// The bit of the status word that reports this condition.
    pub open spec fn spec_bits(self) -> u32 {
        match self {
            CardStatus::AkeSeqError => 0x0000_0008,
            CardStatus::EraseReset => 0x0000_2000,
            CardStatus::CardEccDisabled => 0x0000_4000,
            CardStatus::WpEraseSkip => 0x0000_8000,
            CardStatus::CidCsdOverwrite => 0x0001_0000,
            CardStatus::CcError => 0x0010_0000,
            CardStatus::CardEccFailed => 0x0020_0000,
            CardStatus::IllegalCommand => 0x0040_0000,
            CardStatus::ComCrcError => 0x0080_0000,
            CardStatus::LockUnlockFailed => 0x0100_0000,
            CardStatus::WpViolation => 0x0400_0000,
            CardStatus::EraseParam => 0x0800_0000,
            CardStatus::EraseSeqError => 0x1000_0000,
            CardStatus::BlockLenError => 0x2000_0000,
            CardStatus::AddressMisaligned => 0x4000_0000,
            CardStatus::AddressOutOfRange => 0x8000_0000,
            CardStatus::Error => 0x0008_0000,
            CardStatus::R6CrcFailed => 0x0000_8000,
            CardStatus::R6IllegalCommand => 0x0000_4000,
            CardStatus::R6GeneralUnknownError => 0x0000_2000,
        }
    }

    /// The bit of the status word that reports this condition.
    pub fn bits(&self) -> (r: u32)
        ensures
            r == self.spec_bits(),
    {
        match self {
            CardStatus::AkeSeqError => 0x0000_0008,
            CardStatus::EraseReset => 0x0000_2000,
            CardStatus::CardEccDisabled => 0x0000_4000,
            CardStatus::WpEraseSkip => 0x0000_8000,
            CardStatus::CidCsdOverwrite => 0x0001_0000,
            CardStatus::CcError => 0x0010_0000,
            CardStatus::CardEccFailed => 0x0020_0000,
            CardStatus::IllegalCommand => 0x0040_0000,
            CardStatus::ComCrcError => 0x0080_0000,
            CardStatus::LockUnlockFailed => 0x0100_0000,
            CardStatus::WpViolation => 0x0400_0000,
            CardStatus::EraseParam => 0x0800_0000,
            CardStatus::EraseSeqError => 0x1000_0000,
            CardStatus::BlockLenError => 0x2000_0000,
            CardStatus::AddressMisaligned => 0x4000_0000,
            CardStatus::AddressOutOfRange => 0x8000_0000,
            CardStatus::Error => 0x0008_0000,
            CardStatus::R6CrcFailed => 0x0000_8000,
            CardStatus::R6IllegalCommand => 0x0000_4000,
            CardStatus::R6GeneralUnknownError => 0x0000_2000,
        }
    }
}

/// The classifier's priority list: entry `i` is tested before entry `i + 1`.
pub open spec fn spec_classified_at(i: int) -> CardStatus {
    if i == 0 { CardStatus::AkeSeqError }
    else if i == 1 { CardStatus::EraseReset }
    else if i == 2 { CardStatus::CardEccDisabled }
    else if i == 3 { CardStatus::WpEraseSkip }
    else if i == 4 { CardStatus::CidCsdOverwrite }
    else if i == 5 { CardStatus::CcError }
    else if i == 6 { CardStatus::CardEccFailed }
    else if i == 7 { CardStatus::IllegalCommand }
    else if i == 8 { CardStatus::ComCrcError }
    else if i == 9 { CardStatus::LockUnlockFailed }
    else if i == 10 { CardStatus::WpViolation }
    else if i == 11 { CardStatus::EraseParam }
    else if i == 12 { CardStatus::EraseSeqError }
    else if i == 13 { CardStatus::BlockLenError }
    else if i == 14 { CardStatus::AddressMisaligned }
    else { CardStatus::AddressOutOfRange }
}

/// Entry `i` of the classifier's priority list.
pub fn classified_at(i: usize) -> (r: CardStatus)
    requires
        i < NUM_CLASSIFIED,
    ensures
        r == spec_classified_at(i as int),
{
    match i {
        0 => CardStatus::AkeSeqError,
        1 => CardStatus::EraseReset,
        2 => CardStatus::CardEccDisabled,
        3 => CardStatus::WpEraseSkip,
        4 => CardStatus::CidCsdOverwrite,
        5 => CardStatus::CcError,
        6 => CardStatus::CardEccFailed,
        7 => CardStatus::IllegalCommand,
        8 => CardStatus::ComCrcError,
        9 => CardStatus::LockUnlockFailed,
        10 => CardStatus::WpViolation,
        11 => CardStatus::EraseParam,
        12 => CardStatus::EraseSeqError,
        13 => CardStatus::BlockLenError,
        14 => CardStatus::AddressMisaligned,
        _ => CardStatus::AddressOutOfRange,
    }
}

/// The first entry, from position `i` on, whose bit is set in `s`; the general
/// `Error` when none is.
pub open spec fn first_set_from(s: u32, i: int) -> CardStatus
    decreases NUM_CLASSIFIED - i,
{
    if i < 0 || i >= NUM_CLASSIFIED {
        CardStatus::Error
    } else if s & spec_classified_at(i).spec_bits() != 0 {
        spec_classified_at(i)
    } else {
        first_set_from(s, i + 1)
    }
}

/// The error that a card-status word reports, if any.
pub open spec fn card_error_of(s: u32) -> Option<CardStatus> {
    if s & OCR_ERROR_BITS == 0 {
        None
    } else {
        Some(first_set_from(s, 0))
    }
}

/// Classifies a card-status word: `Ok` when no error bit is set, otherwise the
/// first condition of the priority list whose bit is set.
pub fn check_for_errors(card_status: u32) -> (r: Result<(), Error>)
    ensures
        r == match card_error_of(card_status) {
            None => Ok(()),
            Some(t) => Err(Error::CardError { t }),
        },
{
    if card_status & OCR_ERROR_BITS == 0 {
        return Ok(());
    }
    let mut i: usize = 0;
    while i < NUM_CLASSIFIED
        invariant
            0 <= i <= NUM_CLASSIFIED,
            card_status & OCR_ERROR_BITS != 0,
            first_set_from(card_status, 0) == first_set_from(card_status, i as int),
        decreases NUM_CLASSIFIED - i,
    {
        let t = classified_at(i);
        if card_status & t.bits() != 0 {
            assert(first_set_from(card_status, i as int) == t);
            return Err(Error::CardError { t });
        }
        assert(first_set_from(card_status, i as int) == first_set_from(card_status, i + 1));
        i = i + 1;
    }
    Err(Error::CardError { t: CardStatus::Error })
}

/// A set bit of any entry of the priority list is one of the error bits.
proof fn lemma_listed_bit_is_error_bit(s: u32, m: u32)
    by (bit_vector)
    requires
        s & m != 0,
        m == 0x0000_0008 || m == 0x0000_2000 || m == 0x0000_4000 || m == 0x0000_8000
            || m == 0x0001_0000 || m == 0x0010_0000 || m == 0x0020_0000 || m == 0x0040_0000
            || m == 0x0080_0000 || m == 0x0100_0000 || m == 0x0400_0000 || m == 0x0800_0000
            || m == 0x1000_0000 || m == 0x2000_0000 || m == 0x4000_0000 || m == 0x8000_0000,
    ensures
        s & OCR_ERROR_BITS != 0,
{
}

/// Searching from position `k` finds an entry no later than `i` when the bit of
/// entry `i` is set.
proof fn lemma_first_set_no_later(s: u32, k: int, i: int)
    requires
        0 <= k <= i < NUM_CLASSIFIED,
        s & spec_classified_at(i).spec_bits() != 0,
    ensures
        exists|m: int| k <= m <= i && first_set_from(s, k) == spec_classified_at(m),
    decreases i - k,
{
    if s & spec_classified_at(k).spec_bits() != 0 {
        assert(first_set_from(s, k) == spec_classified_at(k));
    } else {
        lemma_first_set_no_later(s, k + 1, i);
        let m = choose|m: int| k + 1 <= m <= i && first_set_from(s, k + 1) == spec_classified_at(m);
        assert(first_set_from(s, k) == spec_classified_at(m));
    }
}

/// Fixed priority: when the bits of two entries of the list are both set, the
/// later entry is never the one reported, whatever else the word holds.
pub proof fn lemma_earlier_entry_wins(s: u32, i: int, j: int)
    requires
        0 <= i < j < NUM_CLASSIFIED,
        s & spec_classified_at(i).spec_bits() != 0,
        s & spec_classified_at(j).spec_bits() != 0,
    ensures
        card_error_of(s) is Some,
        card_error_of(s) != Some(spec_classified_at(j)),
        exists|m: int| 0 <= m <= i && card_error_of(s) == Some(spec_classified_at(m)),
{
    lemma_listed_bit_is_error_bit(s, spec_classified_at(i).spec_bits());
    lemma_first_set_no_later(s, 0, i);
    let m = choose|m: int| 0 <= m <= i && first_set_from(s, 0) == spec_classified_at(m);
    assert(spec_classified_at(m) != spec_classified_at(j));
}

/// The address or error that the status field of a CMD3 response gives.
pub open spec fn r6_result(s: u32) -> Result<u16, CardStatus> {
    if s & R6_ERROR_BITS == 0 {
        Ok((s >> 16) as u16)
    } else if s & CardStatus::R6CrcFailed.spec_bits() != 0 {
        Err(CardStatus::R6CrcFailed)
    } else if s & CardStatus::R6IllegalCommand.spec_bits() != 0 {
        Err(CardStatus::R6IllegalCommand)
    } else {
        Err(CardStatus::R6GeneralUnknownError)
    }
}

/// Decodes the status field of a CMD3 response: the relative card address in
/// the upper half-word, unless a disqualifying bit is set.
pub fn check_r6_status(card_status: u32) -> (r: Result<u16, Error>)
    ensures
        r == match r6_result(card_status) {
            Ok(rca) => Ok(rca),
            Err(t) => Err(Error::CardError { t }),
        },
{
    if card_status & R6_ERROR_BITS == 0 {
        Ok((card_status >> 16) as u16)
    } else if card_status & CardStatus::R6CrcFailed.bits() != 0 {
        Err(Error::CardError { t: CardStatus::R6CrcFailed })
    } else if card_status & CardStatus::R6IllegalCommand.bits() != 0 {
        Err(Error::CardError { t: CardStatus::R6IllegalCommand })
    } else {
        Err(Error::CardError { t: CardStatus::R6GeneralUnknownError })
    }
}

} // verus!
