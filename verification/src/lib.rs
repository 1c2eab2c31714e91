//! Live capture viewer core: decoding of link-layer frames into display
//! records, and the pause/resume state machine that decides, per event,
//! whether a record is rendered at once or buffered for the next resume.
pub mod decode;
pub mod laws;
pub mod record;
pub mod render;
pub mod session;
pub mod text;
