//! The controls through which the four parameters are edited.
use vstd::prelude::*;

verus! {

/// Least value a slider lets a parameter take.
pub const SLIDER_MIN: i32 = -5;

/// Greatest value a slider lets a parameter take.
pub const SLIDER_MAX: i32 = 5;

/// One of the two colliding bodies.
#[derive(Clone, Copy, Debug, PartialEq, Eq, Structural)]
pub enum Body {
    First,
    Second,
}

/// One of the two parameters of a body.
#[derive(Clone, Copy, Debug, PartialEq, Eq, Structural)]
pub enum Quantity {
    Mass,
    Velocity,
}

impl Body {
    /// The heading of the body's group of sliders, as a sequence of characters.
    pub open spec fn heading_text(self) -> Seq<char> {
        match self {
            Body::First => "Object 1:"@,
            Body::Second => "Object 2:"@,
        }
    }

    /// Heading shown above the body's sliders.
    pub fn heading(self) -> (text: &'static str)
        ensures
            text@ == self.heading_text(),
    {
        match self {
            Body::First => "Object 1:",
            Body::Second => "Object 2:",
        }
    }
}

impl Quantity {
    /// The caption of the parameter's slider, as a sequence of characters.
    pub open spec fn label_text(self) -> Seq<char> {
        match self {
            Quantity::Mass => "Mass"@,
            Quantity::Velocity => "Velocity"@,
        }
    }

    /// Caption shown beside the parameter's slider.
    pub fn label(self) -> (text: &'static str)
        ensures
            text@ == self.label_text(),
    {
        match self {
            Quantity::Mass => "Mass",
            Quantity::Velocity => "Velocity",
        }
    }
}

} // verus!
