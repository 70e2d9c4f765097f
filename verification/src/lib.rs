//! Header field model for a speech-processing protocol stack.
//!
//! Translates raw, sparsely-populated protocol message headers into
//! strongly-typed, defaulted domain values: a string-span adapter, a
//! sparse header-section model with O(1) presence testing, a
//! vendor-parameter extractor, and typed header views for the
//! recognition and synthesis resources.

pub mod message;
pub mod recog;
pub mod section;
pub mod span;
pub mod synth;
pub mod vendor;

pub use message::MrcpMessage;
pub use recog::RecogHeaders;
pub use synth::SynthHeaders;
