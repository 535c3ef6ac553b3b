//! Presentation rules for a plot of the velocity pairs that two colliding
//! bodies may take without changing their total momentum or their total
//! kinetic energy.
//!
//! The plot shows three polylines over the plane of the two velocities: the
//! line of constant momentum and the two halves of the curve of constant
//! energy. This library fixes which polylines there are, how each is drawn and
//! named, how finely it is evaluated, what the controls of the four
//! parameters look like, and how numbers on the plot are worded. The curve
//! equations themselves are evaluated in floating point by the front end.
pub mod panel;
pub mod series;
pub mod text;
