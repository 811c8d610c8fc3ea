//! Session orchestration for point-of-sale registers ("cajas") that talk to
//! the Yappy payment gateway.
//!
//! A register is `Cerrado` or `Abierto`; while it is `Abierto` it holds the
//! session token that the gateway issued, and it may hold one outstanding
//! charge. The library decides what happens to a register: whether a
//! session has to be opened before a charge, what the gateway's answer to a
//! close means, when an outstanding charge is over. It does no I/O. Each
//! operation is a step function: the caller makes the writes and the
//! gateway call that a step asks for, and steps again with the reply.
//!
//! - [`caja`], [`estado`]: the register and its transitions.
//! - [`amount`]: amounts of money, handed on as they come.
//! - [`gateway`], [`payload`]: the gateway's calls, as values.
//! - [`reply`]: a call's end, decoded into typed fields.
//! - [`session`]: opening and closing a register.
//! - [`charge`]: generating a charge.
//! - [`correlator`]: status and return of the outstanding charge.
//! - [`recorder`]: the reconciliation policy of a close attempt.
//! - [`sweep`]: closing every open register in turn.
//! - [`laws`]: what holds over any run of these operations.
//! - [`json`], [`headers`]: the calls into `serde_json` and
//!   `reqwest::header`, whose contracts are taken on trust.

pub mod amount;
pub mod caja;
pub mod charge;
pub mod correlator;
pub mod device;
pub mod errors;
pub mod estado;
pub mod flow;
pub mod gateway;
pub mod grupos;
pub mod headers;
pub mod json;
pub mod laws;
pub mod payload;
pub mod recorder;
pub mod reply;
pub mod session;
pub mod store;
pub mod sweep;
pub mod text;
