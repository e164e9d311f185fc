//! Core of a voice-typing app: prompt construction for the polishing and
//! audio-native models, audio preparation, interpretation of the model's
//! edit replies, output fallback, settings normalization, audio cues and
//! Fn-key tap detection, each with a verified contract.
use vstd::prelude::*;

pub mod text;
pub mod prompt;
pub mod audio;
pub mod outside;
pub mod doubao;
pub mod output;
pub mod storage;
pub mod sound;
pub mod fn_tap;
