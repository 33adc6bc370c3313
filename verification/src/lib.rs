//! The output devices of a music player daemon, as a client sees them: their list, read one
//! output at a time, and the commands that switch an output on or off.
//!
//! The library holds the client's decisions and leaves the connection to its caller. Each
//! operation that needs the daemon is a dialogue ([`dialogue`]): it asks, the caller puts
//! the question to the connection, and the answer decides how the operation goes on.
//!
//! - [`connection`]: what is remembered of a connection, and the dialogue of a command;
//! - [`outputs`]: the enumeration of the outputs, and the handle of one output;
//! - [`text`] and [`encode`]: the two forms in which an output is written out;
//! - [`error`]: what can go wrong;
//! - [`delivery`]: what holds of an enumeration against every list, with proofs.

pub mod connection;
pub mod delivery;
pub mod dialogue;
pub mod encode;
pub mod error;
pub mod outputs;
pub mod text;
