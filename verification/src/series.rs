//! The polylines of the plot and how each of them is drawn.
use vstd::prelude::*;

verus! {

/// Number of points along which every polyline is evaluated.
pub const SAMPLES: usize = 512;

/// Stroke width of every polyline, in points.
pub const STROKE_WIDTH: u8 = 3;

/// An opaque colour, by its red, green and blue channels.
#[derive(Clone, Copy, Debug, PartialEq, Eq, Structural)]
pub struct Rgb {
    pub r: u8,
    pub g: u8,
    pub b: u8,
}

/// One polyline of the plot.
#[derive(Clone, Copy, Debug, PartialEq, Eq, Structural)]
pub enum Series {
    /// The velocity pairs with the total momentum of the current parameters.
    Momentum,
    /// Those with the current total kinetic energy and a second velocity
    /// that is not negative.
    EnergyUpper,
    /// Those with the current total kinetic energy and a second velocity
    /// that is not positive.
    EnergyLower,
}

impl Series {
    /// Whether the polyline is one half of the energy curve.
    pub open spec fn is_energy_half(self) -> bool {
        self != Series::Momentum
    }

    /// The legend entry, as a sequence of characters.
    pub open spec fn legend_text(self) -> Seq<char> {
        match self {
            Series::Momentum => "States with preserved momentum"@,
            Series::EnergyUpper | Series::EnergyLower => "States with preserved energy"@,
        }
    }

    /// The stroke colour: red for momentum, blue for energy.
    pub open spec fn paint(self) -> Rgb {
        match self {
            Series::Momentum => Rgb { r: 255, g: 0, b: 0 },
            Series::EnergyUpper | Series::EnergyLower => Rgb { r: 0, g: 0, b: 255 },
        }
    }

    /// Name under which the polyline appears in the legend.
    pub fn legend(self) -> (name: &'static str)
        ensures
            name@ == self.legend_text(),
    {
        match self {
            Series::Momentum => "States with preserved momentum",
            Series::EnergyUpper | Series::EnergyLower => "States with preserved energy",
        }
    }

    /// Colour in which the polyline is stroked.
    pub fn colour(self) -> (c: Rgb)
        ensures
            c == self.paint(),
    {
        match self {
            Series::Momentum => Rgb { r: 255, g: 0, b: 0 },
            Series::EnergyUpper | Series::EnergyLower => Rgb { r: 0, g: 0, b: 255 },
        }
    }

    /// Width of the polyline's stroke, the same for all of them.
    pub fn stroke_width(self) -> (w: u8)
        ensures
            w == STROKE_WIDTH,
    {
        STROKE_WIDTH
    }

    /// Number of points to evaluate along the polyline. It depends neither on
    /// the polyline nor on the parameters of the two bodies.
    pub fn samples(self) -> (n: usize)
        ensures
            n == SAMPLES,
    {
        SAMPLES
    }
}

/// The two halves of the energy curve cannot be told apart by legend entry,
/// colour or stroke: they read as one curve.
pub proof fn energy_halves_drawn_alike(a: Series, b: Series)
    requires
        a.is_energy_half(),
        b.is_energy_half(),
    ensures
        a.legend_text() == b.legend_text(),
        a.paint() == b.paint(),
{
}

} // verus!
