//! Spacing quantities of the styling system: a plain number of spacing
//! steps or a fraction of the container, rendered as CSS `calc` text.

use vstd::prelude::*;
use crate::numeric::{dec_int, i32_string};

verus! {

/// A spacing quantity: a number of spacing steps, or a fraction.
#[derive(PartialEq, Eq, Clone, Copy, Structural, Debug)]
pub enum TailwindNumber {
    Number(i32),
    Fraction(i32, i32),
}

/// CSS text of a spacing quantity.
pub open spec fn css_spec(t: TailwindNumber) -> Seq<char> {
    match t {
        TailwindNumber::Number(x) => "calc(var(--spacing) * "@ + dec_int(x as int) + ")"@,
        TailwindNumber::Fraction(top, bottom) => "calc("@ + dec_int(top as int) + "/"@
            + dec_int(bottom as int) + " * 100)"@,
    }
}

impl TailwindNumber {
    /// CSS text of this quantity, as the styling layer embeds it.
    pub fn to_css(&self) -> (r: String)
        ensures
            r@ == css_spec(*self),
    {
        match self {
            TailwindNumber::Number(x) => {
                let mut s = String::from_str("calc(var(--spacing) * ");
                s.append(i32_string(*x).as_str());
                s.append(")");
                s
            },
            TailwindNumber::Fraction(top, bottom) => {
                let mut s = String::from_str("calc(");
                s.append(i32_string(*top).as_str());
                s.append("/");
                s.append(i32_string(*bottom).as_str());
                s.append(" * 100)");
                s
            },
        }
    }
}

impl From<i32> for TailwindNumber {
    /// A bare number is a plain spacing count.
    fn from(val: i32) -> (r: Self)
        ensures
            r == TailwindNumber::Number(val),
    {
        TailwindNumber::Number(val)
    }
}

impl vstd::std_specs::convert::FromSpecImpl<i32> for TailwindNumber {
    open spec fn obeys_from_spec() -> bool {
        true
    }

    open spec fn from_spec(val: i32) -> Self {
        TailwindNumber::Number(val)
    }
}

} // verus!
