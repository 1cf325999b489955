//! RGB color value type.

use crate::util::{push_hex_byte, spec_hex_byte};
use vstd::prelude::*;
use vstd::string::StringExecFns;

verus! {

/// An 8-bit-per-channel color; a plain value type.
#[derive(Clone, Copy, Debug, PartialEq, Eq, Structural)]
pub struct RGBColor {
    pub red: u8,
    pub green: u8,
    pub blue: u8,
}

/// The CSS rendering of a color: `#` followed by the three channels in
/// lower-case hexadecimal, two digits each.
pub open spec fn spec_css_string(c: RGBColor) -> Seq<char> {
    seq!['#'] + spec_hex_byte(c.red) + spec_hex_byte(c.green) + spec_hex_byte(c.blue)
}

impl RGBColor {
    pub fn new(red: u8, green: u8, blue: u8) -> (r: Self)
        ensures
            r == (RGBColor { red, green, blue }),
    {
        RGBColor { red, green, blue }
    }

    pub fn to_css_string(&self) -> (r: String)
        ensures
            r@ == spec_css_string(*self),
    {
        let mut s = String::new();
        proof {
            reveal_strlit("#");
        }
        s.append("#");
        push_hex_byte(&mut s, self.red);
        push_hex_byte(&mut s, self.green);
        push_hex_byte(&mut s, self.blue);
        proof {
            assert(s@ =~= spec_css_string(*self));
        }
        s
    }
}

} // verus!
