//! Wording of the numbers shown on the plot.
use vstd::prelude::*;
use vstd::string::StringExecFns;

verus! {

/// Digits after the decimal point of a coordinate in the hover text.
pub const HOVER_DECIMALS: usize = 3;

/// The unit of velocity as it follows a number.
pub const UNIT: &'static str = " m/s";

/// A number followed by the unit of velocity.
pub open spec fn with_unit(number: Seq<char>) -> Seq<char> {
    number + UNIT@
}

/// The two lines of the hover text: each coordinate after the name of the
/// velocity it stands for, with the unit behind it.
pub open spec fn hover_lines(first: Seq<char>, second: Seq<char>) -> Seq<char> {
    "v₁ = "@ + with_unit(first) + "\nv₂ = "@ + with_unit(second)
}

/// Label of an axis tick, from the number already written out.
pub fn axis_label(number: &str) -> (label: String)
    ensures
        label@ == with_unit(number@),
{
    let mut label = String::from_str(number);
    label.append(UNIT);
    label
}

/// Text shown beside the pointer, from the two coordinates already written
/// out: the first body's velocity, then the second's.
pub fn hover_text(first: &str, second: &str) -> (text: String)
    ensures
        text@ == hover_lines(first@, second@),
{
    let mut text = String::from_str("v₁ = ");
    text.append(first);
    text.append(UNIT);
    text.append("\nv₂ = ");
    text.append(second);
    text.append(UNIT);
    assert(text@ =~= hover_lines(first@, second@));
    text
}

} // verus!
