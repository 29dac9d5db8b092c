//! Drawing-surface correction for a TFT panel whose red/blue lines are
//! swapped and whose horizontal scan is mirrored, with the small widget and
//! style model drawn through it.

pub mod color;
pub mod geometry;
pub mod layout;
pub mod screen;
pub mod style;
pub mod surface;
pub mod widget;
