//! Zero-knowledge proofs of environmental product declarations: the rules of the
//! prover service.
//!
//! A proof program computes a declaration from figures that stay private and commits
//! the declaration to a journal; the proving engine seals the journal into a receipt.
//! This library holds what the service around the engine decides:
//!
//! - [`verify`]: whether a claimed declaration is the one that a proof record holds,
//!   before the engine is asked about the seal;
//! - [`proving`]: what is made of the receipt of a proof job;
//! - [`tasks`]: the life cycle of proof jobs, as one table changed by commands;
//! - [`requests`] and [`handlers`]: which program a request names, and what is
//!   answered;
//! - [`dto`] and [`epd`]: requests as they arrive, and what the programs take in and
//!   commit to;
//! - [`impact`]: what the programs compute of whole numbers;
//! - [`journal`], [`record`], [`binary64`], [`text`], [`task_id`]: the layouts and
//!   codes underneath.
//!
//! The codecs of proof records and the source of task identifiers are used as they
//! are: what is relied on of them is stated where they are called, in [`record`],
//! [`task_id`], [`journal`] and [`epd`]. The proving engine is called by who uses the
//! library: [`verify`] says what to ask it, and takes its answer.

pub mod binary64;
pub mod dto;
pub mod epd;
pub mod error;
pub mod handlers;
pub mod impact;
pub mod journal;
pub mod proving;
pub mod record;
pub mod requests;
pub mod task_id;
pub mod tasks;
pub mod text;
pub mod verify;
