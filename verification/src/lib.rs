//! Protocol engine for the Crazyradio USB dongle.
//!
//! The dongle is driven over USB control and bulk transfers. This crate holds
//! every decision of the driver and none of its I/O: each operation is a small
//! state machine that names the next [`Transfer`] to perform and is resumed with
//! the [`Outcome`] of that transfer. The caller owns the device handle, performs
//! the transfers and suspends while waiting; the machines decide what is sent,
//! in which order, what is remembered, and who may talk to the dongle.
//!
//! # The parts
//!
//! - [`Channel`], [`Ack`], [`Error`]: the values of the driver.
//! - [`Crazyradio`]: what is known of one dongle, and the single transfers
//!   that change it. A setting the dongle already has is not written again.
//! - [`exchange::Exchange`]: one whole exchange with the dongle, which writes
//!   the settings, sends a packet and reads the answer.
//! - [`SharedCrazyradio`]: the lock that lends the dongle to one operation at a
//!   time. [`shared::SendPacket`] sends one packet through it, [`scan::Scan`]
//!   probes a range of channels and takes the lock anew for each.
//! - [`exclusion`]: the proof that operations never mingle their transfers.
//! - [`dongle`]: the proof that, on a dongle in good order, a packet gets the
//!   answer of the radio and a scan finds the channels that answer.
//!
//! # Driving an operation
//!
//! An operation is prepared by [`SharedCrazyradio::send_packet_async`] or
//! [`SharedCrazyradio::scan_async`] and begun with `begin`. A step that comes
//! back `Idle` found the lock held: begin again when the holder is done. A
//! step that comes back `Pending` names a transfer: perform it, then hand its
//! outcome to `resume`. A step that comes back `Finished` holds the result,
//! and the lock is free again.

pub mod ack;
pub mod channel;
pub mod dongle;
pub mod error;
pub mod exchange;
pub mod exclusion;
pub mod radio;
pub mod scan;
pub mod shared;
pub mod transfer;

pub use crate::ack::Ack;
pub use crate::channel::Channel;
pub use crate::error::Error;
pub use crate::radio::Crazyradio;
pub use crate::shared::SharedCrazyradio;
pub use crate::transfer::{Outcome, Transfer};
