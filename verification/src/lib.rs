//! Host-side byte streams for a sandboxed guest, and the calling-convention
//! identifiers used when compiling for a target.
//!
//! The guest names streams and readiness handles by integer handles. The
//! [`table`] owns what the handles stand for, the [`stream`] traits say what
//! a stream backend must offer, and [`io`] holds the operations that a guest
//! may call, with the mapping of failures onto the two kinds of error that
//! may reach it. [`laws`] states what holds of the operations over any run
//! of them.

pub mod call_conv;
pub mod settings;
pub mod table;
pub mod stream;
pub mod io;
pub mod laws;
