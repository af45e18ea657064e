//! Verified core of an iterated-function-system renderer: the hit-count
//! histogram, the numeric text boxes of the settings panel, the parameter
//! groups, and the decisions that drive the background evaluators.

pub mod histogram;
pub mod decimal;
pub mod textbox;
pub mod params;
pub mod task;
pub mod flags;
pub mod frame;
