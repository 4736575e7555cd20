//! Client-side driver for line/byte-oriented TCP services that signal the end
//! of a burst by going quiet rather than by a delimiter.
//!
//! The crate separates the session logic from the socket work.  Everything
//! that decides or computes lives here: the lossy decoding and concatenation
//! of drained chunks, the newline framing of answers, the configuration
//! builder with its validation, and the read-respond control protocol.  The
//! blocking socket calls themselves are left to the embedding application,
//! which feeds their results to these functions as plain values.

pub mod error;
pub mod session;
pub mod wire;

pub use error::CtfTcpHandlerError;
pub use session::connection_uri;
pub use session::ConnectionPlan;
pub use session::CtfLoopResponder;
pub use session::SessionOutcome;
pub use session::DEFAULT_TIMEOUT_MS;
pub use wire::decode_chunk;
pub use wire::frame_answer;
pub use wire::text_from_chunks;
