//! An interactive, voice-driven command pipeline: live audio is captured
//! and converted to 16-bit PCM, streamed to a transcription service, and
//! the transcribed words are folded into a pending utterance whose
//! reserved keywords drive a task dispatcher — chat completions, saved
//! documents, session memory, and scripts whose outcome is classified
//! from their own output. The state machines, the dispatcher, the
//! classifiers and the text handling are verified here; the device,
//! network and process edges surround the library and hand it plain
//! values.
use vstd::prelude::*;

pub mod audio;
pub mod chat;
pub mod cli;
pub mod dispatch;
pub mod memory;
pub mod parser;
pub mod runner;
pub mod session;
pub mod text;
pub mod words;

verus! {

} // verus!
