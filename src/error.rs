//! The error taxonomy that every command of the engine reports.
use vstd::prelude::*;

verus! {

/// A condition reported by the card in its status word.
#[derive(Clone, Copy, Debug, PartialEq, Eq, Structural)]
pub enum CardStatus {
    AkeSeqError,
    EraseReset,
    CardEccDisabled,
    WpEraseSkip,
    CidCsdOverwrite,
    CcError,
    CardEccFailed,
    IllegalCommand,
    ComCrcError,
    LockUnlockFailed,
    WpViolation,
    EraseParam,
    EraseSeqError,
    BlockLenError,
    AddressMisaligned,
    AddressOutOfRange,
    /// A general error bit is set that none of the named conditions explains.
    Error,
    /// The CRC of the previous command failed (status field of a CMD3 response).
    R6CrcFailed,
    /// The previous command was illegal (status field of a CMD3 response).
    R6IllegalCommand,
    /// General or unknown error (status field of a CMD3 response).
    R6GeneralUnknownError,
}

/// A failure signalled by the controller itself.
#[derive(Clone, Copy, Debug, PartialEq, Eq, Structural)]
pub enum SdmmcErrorType {
    /// The response CRC was wrong, or the echoed command index did not match.
    CmdCrcFailed,
    /// The controller saw no response from the card.
    CmdRespTimeout,
}

#[allow(inconsistent_fields)]
#[derive(Clone, Copy, Debug, PartialEq, Eq, Structural)]
pub enum Error {
    /// The caller's deadline passed before the controller reached a terminal state.
    Timeout,
    SdmmcError { t: SdmmcErrorType },
    CardError { t: CardStatus },
}

} // verus!
