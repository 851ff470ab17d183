//! Command-line argument resolution for a grep-like search tool.
//!
//! The crate turns the raw argument vector (program name excluded) into a
//! structured [`Command`]: a help request, a version request, or a fully
//! resolved search request.  The grammar of recognized flags, the
//! "later flag wins" override rule among the output flags, and the
//! exclusive-or rule for inverted matching are stated as spec functions
//! and proved of the executable resolver.

pub mod args;
pub mod laws;
pub mod schema;

pub use args::Args;
pub use args::Command;
pub use args::Error;
pub use args::Options;
pub use args::Output;
pub use args::RawMatches;
pub use args::assemble;
pub use args::parse;
pub use args::resolve_tokens;
pub use schema::OutputFlag;
