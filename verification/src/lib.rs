//! Protocol and dispatch core of a hardware security token.
//!
//! The crate has two halves. One routes ISO7816 command APDUs arriving on a
//! physical interface to one of several registered applications, with an
//! exclusive-selection rule per interface. The other talks to a secure-element
//! coprocessor through the ISO/IEC 7816-3 T=1 half-duplex block protocol over
//! an I2C bus: checksummed block framing, sequence numbering, S-block control
//! exchanges, and answer-to-reset parsing.

pub mod bytes;
pub mod fpr;
pub mod interchange;
pub mod iso;
pub mod rle;
pub mod se050;
pub mod t1;
pub mod ui;
pub mod crc;
pub mod dispatch;

use vstd::prelude::*;

verus! {

/// Largest payload the command buffers accept.
pub const COMMAND_CAPACITY: usize = 7609;

/// Largest payload the response buffers accept.
pub const RESPONSE_CAPACITY: usize = 7609;

} // verus!
