//! Username/password pairs kept in a two-line text file.
//!
//! `session` holds the rules by which credentials are obtained: from the
//! backing file or, where that cannot be read, from two lines of input that
//! are then written to it. `store` says where the file is and what it holds,
//! `lines` how a text falls into lines, and `record` what credentials and
//! errors are.

pub mod lines;
pub mod record;
pub mod session;
pub mod store;

pub use record::{Credentials, CredentialsError};
pub use session::{begin, step, Action, Event, State};
pub use store::DEFAULT_CREDENTIALS_FILE;
