//! Text-to-speech pipeline: segmentation of text at utterance boundaries,
//! argument construction for an external synthesis engine, and the
//! sequential orchestration of synthesis, decoding and playback.

pub mod pipeline;
pub mod segmenter;
pub mod synth;
