//! Settings model, normalization, color handling, load classification and
//! the commit decision; file access stays with the application layer.

pub mod color;
pub mod model;
pub mod ids;
pub mod exclusions;
pub mod normalize;
pub mod compare;
pub mod load_report;
pub mod sync;
