//! A session and command/response protocol core for laboratory instruments
//! that speak fixed frames over a byte transport: a data-acquisition device
//! on USB interrupt endpoints, and a bench multimeter on a serial line.
//!
//! The crate performs no I/O of its own. A [`transport::Transport`] carries
//! out the activation steps and the bounded writes and reads; what is asked
//! of it, in which order, and what becomes of each of its reports is decided
//! here, and proved.
//!
//! - [`topology`] models what a device reports of its shape, and
//!   [`validator`] holds that against the one shape that is accepted.
//! - [`establishment`] is the rule of session establishment, step by step;
//!   [`session`] carries it out over a link and keeps the session that
//!   results.
//! - [`command`] and [`channel`] encode the commands and perform one
//!   exchange; [`decoder`] reads the response.
//! - [`transport`] defines the transport and the [`transport::Link`] that
//!   keeps account of every operation asked of it.
//! - [`probe`] holds the two complete runs.

pub mod channel;
pub mod command;
pub mod decoder;
pub mod device;
pub mod error;
pub mod establishment;
pub mod line;
pub mod probe;
pub mod session;
pub mod topology;
pub mod transport;
pub mod validator;
