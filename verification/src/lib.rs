//! Connection lifecycle for the local API of a game client.
//!
//! The game client serves its local API on a port, and behind a secret, that
//! it picks at every start and shows only on its own command line. This
//! library holds the rules of getting connected to it and staying so:
//!
//! - [`process`] tells from the names of the running processes whether the
//!   game client is among them;
//! - [`query`] composes the elevated query for the game client's command line
//!   and reads the code that its launch returned;
//! - [`extract`] reads the port and the secret out of the command line and
//!   composes the credentials;
//! - [`lcu`] is the supervisor that decides, poll by poll, when to extract
//!   credentials and when to drop the client;
//! - [`commands`] prepares invocations of the local API against the client
//!   that the supervisor holds.
//!
//! The library does no input or output. Its owner enumerates processes, runs
//! the query, sleeps and sends requests, and hands the library what came back.

pub mod commands;
pub mod extract;
pub mod lcu;
pub mod process;
pub mod query;

pub use commands::{invoke_api, transport_outcome, ApiError, ApiRequest};
pub use extract::{extract_credentials, get_lcu_port_token, Credentials, ExtractionError};
pub use lcu::{Action, Lcu};
pub use process::is_lol_running;
