//! The core of a terminal client for a task service.
//!
//! - [`parser`] reads a line of free text into the fields of a task: title,
//!   priority, due date and description.
//! - [`app`] holds the state of the client and says how a key, or an answer of
//!   the task service, changes it and what is to be asked of the service next.
//! - [`ui`] works out what a frame shows for a state on a terminal of a given
//!   size.
//! - [`api`] builds what is sent to the task service.
//! - [`models`] are the records that the task service sends.
//! - [`text`] is the handling of characters that the others share.
//!
//! Nothing here reads keys, draws or talks to the network: the program around
//! the library does, and hands over plain values.

pub mod api;
pub mod app;
pub mod models;
pub mod parser;
pub mod text;
pub mod ui;
