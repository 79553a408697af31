//! A color-wheel picker widget, reduced to its verifiable core: exact
//! HSV-to-RGB color math on rationals, the widget's drag state machine,
//! the triangle-mesh geometry it asks a renderer to draw, and the host
//! state that stores the selected color.

pub mod color;
pub mod host;
pub mod widget;
