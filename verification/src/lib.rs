//! LoopW window-management logic: frame math, command parsing, cycling,
//! radial targets, stash bookkeeping and settings normalization, each with a
//! machine-checked contract.

pub mod engine;
pub mod settings;
pub mod text;
pub mod ui;
