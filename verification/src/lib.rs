//! Simulation core of a "digital rain" terminal effect: falling character
//! streams (drops) that emerge at the top of a bounded surface, grow as they
//! advance, slide past the bottom edge and are recycled in place.
//!
//! The vertical position of a drop is kept in fixed-point milli-rows
//! (thousandths of a row), so the sub-cell motion of slow drops is exact
//! integer arithmetic throughout.

pub mod chars;
pub mod options;
pub mod rain_drop;
pub mod sampling;
pub mod style;
