//! The demonstration: one fixed rectangle and the two lines of text that
//! report it.

use crate::decimal::{decimal_text, to_decimal};
use crate::rectangle::Rectangle;
use vstd::prelude::*;

verus! {

/// The length of the demonstration's rectangle.
pub const DEMO_LENGTH: u16 = 3;

/// The width of the demonstration's rectangle.
pub const DEMO_WIDTH: u16 = 4;

/// The line that marks the start of the demonstration.
pub open spec fn entry_marker() -> Seq<char> {
    "Vaibhav entering example_1"@
}

/// The line that reports an area: the label `Area = ` followed by the area
/// in decimal notation.
pub open spec fn area_line_text(area: nat) -> Seq<char> {
    "Area = "@ + decimal_text(area)
}

/// Writes the line that reports `area`.
pub fn area_line(area: u16) -> (line: String)
    ensures
        line@ == area_line_text(area as nat),
{
    let mut line = String::from_str("Area = ");
    let digits = to_decimal(area);
    line.append(digits.as_str());
    line
}

/// The text of the demonstration, line by line and without line ends:
/// first the entry marker, then the area of the rectangle of length 3 and
/// width 4, which is 12. There are exactly these two lines.
pub fn example_1() -> (lines: Vec<String>)
    ensures
        lines@.len() == 2,
        lines@[0]@ == entry_marker(),
        lines@[1]@ == area_line_text(
            (Rectangle { length: DEMO_LENGTH, width: DEMO_WIDTH }).spec_area(),
        ),
        lines@[1]@ == "Area = 12"@,
{
    let rect = Rectangle { length: DEMO_LENGTH, width: DEMO_WIDTH };
    assert(rect.spec_area() == 12) by {
        assert(3nat * 4nat == 12);
    }
    let area = rect.area();
    let mut lines: Vec<String> = Vec::new();
    lines.push(String::from_str("Vaibhav entering example_1"));
    lines.push(area_line(area));
    proof {
        reveal_strlit("Area = ");
        reveal_strlit("Area = 12");
        reveal_with_fuel(decimal_text, 2);
        assert(area_line_text(12) =~= "Area = 12"@);
    }
    lines
}

} // verus!
