//! Reading files and other byte streams for scanning: the record/replay
//! wrapper and the binary/text classifier.
mod recorder;
pub mod utf8;

pub use recorder::lemma_buffer_release;
pub use recorder::lemma_replay_fidelity;
pub use recorder::lemma_single_consumption;
pub use recorder::ReadRecorder;
