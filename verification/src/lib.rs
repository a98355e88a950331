//! The decision core of the Lian Li daemon: everything its service loop decides, as functions
//! from plain values to plain values. The surrounding program owns the devices, the threads, the
//! locks and the files; it performs what the core asks for and reports back what it saw.

pub mod event;
pub mod laws;
pub mod lcd;
pub mod mac;
pub mod mailbox;
pub mod poll;
pub mod run;
pub mod service;
pub mod state;
pub mod streaming;
pub mod turn;
pub mod wireless;
