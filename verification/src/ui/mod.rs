//! Settings-window and overlay decisions that do not need a window system:
//! section labels, appearance presets, the runtime pump cadence and the
//! tray menu placement.

pub mod canvas;
pub mod choices;
pub mod command_plan;
pub mod edits;
pub mod runtime;
pub mod runtime_step;
pub mod section;
pub mod settings_ui;
pub mod theme;
pub mod tray;
