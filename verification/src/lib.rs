//! Intake of content reports.
//!
//! A user reports a message, a server or a user profile.  The library decides
//! what has to be read and written, in which order, to capture the reported
//! content as it is at that moment and to file the report for moderation.  It
//! performs no I/O itself: the caller carries out each request and hands the
//! answer back.

pub mod entities;
pub mod error;
pub mod ident;
pub mod intake;
pub mod laws;
pub mod protocol;
pub mod query;
pub mod report;
pub mod resolve;
pub mod snapshot;
pub mod validate;
