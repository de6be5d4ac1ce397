//! Core of a generic resource-pool broker.
//!
//! The broker keeps a shared pool of opaque items (carried in their canonical
//! JSON text form) from which clients borrow one item, later return it, or
//! submit a new one. Each lifecycle transition fans out to configured HTTP
//! subscribers; subscribers marked must-succeed have to acknowledge before the
//! pool mutation commits. This crate holds the verified core: the pool and
//! ledger model, the operation registry and its state machine, the subscriber
//! dispatch rules, the blocking-borrow protocol, and the per-operation event
//! broadcaster. Network transport, the HTTP surface and configuration loading
//! live in the surrounding application.

pub mod api;
pub mod config;
pub mod dispatch;
pub mod error;
pub mod kvseq;
pub mod ops;
pub mod pool;
pub mod status;
pub mod workflow;
