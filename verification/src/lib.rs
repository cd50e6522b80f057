//! Model lifecycle and cancellable inference pipeline for a desktop chat
//! application that runs a generative-text model locally.
//!
//! The crate holds the decisions of the pipeline: which progress a download,
//! a load or a warm-up reports, when a running loop is told to halt, which
//! session is active, and what text a prompt returns. The work on the
//! network, the disk and the model itself is done by the caller, who hands
//! each outcome to the stage it belongs to.

pub mod cancellation;
pub mod catalog;
pub mod context_file;
pub mod download;
pub mod error;
pub mod inference;
pub mod loader;
pub mod progress;
pub mod session;
pub mod start;
pub mod text;
