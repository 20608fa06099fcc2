//! Command/response transport for the Korad KD3005P bench power supply.
//!
//! The supply speaks short ASCII commands over a serial line and ends every
//! reply by falling silent. This crate holds the decisions of one such
//! exchange: which text goes on the wire, when the reply is complete, how it
//! is decoded and what the trace of the exchange looks like. It performs no
//! input or output itself: a host owns the serial connection, carries out the
//! [`session::Action`] that a [`session::Session`] asks for and reports back
//! what happened as an [`session::Event`].

pub mod command;
pub mod dispatch;
pub mod error;
pub mod panel;
pub mod protocol;
pub mod reply;
pub mod session;
pub mod settings;
pub mod trace;
