//! Reconciliation of locally edited datapoints against a remote store.
//!
//! A goal's datapoints are fetched once, edited locally through a flat text
//! file or a cursor-addressed table, and brought back to the store as the
//! smallest set of creates, updates and deletes. Everything here is pure:
//! callers fetch, read files, talk to the terminal and send the operations.
//!
//! - [`model`], [`requests`]: datapoints as fetched, rows as edited, and
//!   what is sent to create or change one.
//! - [`plan`]: the change detector, the disposition of a row, and the plan
//!   of a row set.
//! - [`bulk`], [`codec`]: the text-file surface, where a line that was
//!   removed is a datapoint to delete.
//! - [`state`], [`handlers`], [`list`], [`view`]: the table surface and the
//!   goal list around it, as state machines over keys.
//! - [`apply`]: the order in which a plan is applied, and the account of a
//!   failure.
//! - [`number`], [`stamp`], [`digits`], [`text`]: measurements, timestamps
//!   and text.
//! - [`goal`], [`goals`], [`config`], [`errors`], [`tool`]: goal types, the
//!   configuration, the faults of the remote store, and the requests of the
//!   tool server.
//!
//! A measurement is held as the decimal text that denotes it, and no
//! arithmetic is done on it here. Whether two measurements whose texts
//! differ lie within the tolerance of each other is judged by the caller.

pub mod apply;
pub mod bulk;
pub mod codec;
pub mod config;
pub mod digits;
pub mod errors;
pub mod goal;
pub mod goals;
pub mod handlers;
pub mod list;
pub mod model;
pub mod number;
pub mod plan;
pub mod requests;
pub mod stamp;
pub mod state;
pub mod text;
pub mod tool;
pub mod view;
