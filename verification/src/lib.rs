//! Mirrors the files that a camera's Wi-Fi file-transfer server lists into a
//! local directory.
//!
//! The crate holds the decisions and leaves the work on the network and on
//! disk to its caller: [`Wft`] says which address to ask and what an answer
//! means, [`SyncDriver`] says what to do next for each listed file, and
//! [`TransferStats`] keeps the account of what has been transferred.

pub mod json;
pub mod stats;
pub mod sync;
pub mod text;
pub mod wft;

pub use json::Json;
pub use stats::TransferStats;
pub use sync::{file_status, Action, Event, FileStatus, Phase, SyncDriver};
pub use wft::{Directory, Entry, Error, ErrorResponse, FormatFailure, Wft};
