//! Command/response protocol engine for an SD memory-card controller.
//!
//! The engine encodes card commands into the controller's argument and command
//! registers, decides on each poll of the controller's status whether the
//! exchange has completed, failed or timed out, checks CRC and the echoed
//! command index, and classifies the card's status word into a single error.

pub mod error;
pub mod card_status;
pub mod regs;
pub mod response;
pub mod catalog;
