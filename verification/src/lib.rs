//! The command bridge of a desktop shell.
//!
//! - `task`: the identifier of a background task, the fixed sequence of phases
//!   its worker runs through, and the progress payloads it publishes.
//! - `bridge`: the cached backend of the embedded runtime, the envelope of a
//!   command, and a dispatch from end to end.
//! - `json`: the calls into `serde_json` that the bridge rests on.
//! - `restore`: the check of a restore request and the reading of the reply.
//! - `recovery`, `recovery_export`: the export of the recovery key.
//! - `extract`: text segments from a word-processing document.
//! - `text`: decimal text, and suffix and blank tests on strings.

pub mod bridge;
pub mod extract;
pub mod json;
pub mod recovery;
pub mod recovery_export;
pub mod restore;
pub mod task;
pub mod text;
