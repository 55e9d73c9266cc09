//! Argument shapes of the `resize` command.
use crate::sway::options::Units;
use crate::text::{dec_str, u8_text};
use vstd::prelude::*;

verus! {

/// A magnitude on a single axis.
#[derive(Debug, Clone, PartialEq, Eq)]
pub enum SingleAxisParams {
    Width { width: u8, unit: Units },
    Height { height: u8, unit: Units },
}

impl SingleAxisParams {
    /// The canonical text: the axis, the magnitude, and the unit.
    pub open spec fn text(self) -> Seq<char> {
        match self {
            SingleAxisParams::Width { width, unit } => "width "@ + dec_str(width as int) + " "@
                + unit.text(),
            SingleAxisParams::Height { height, unit } => "height "@ + dec_str(height as int)
                + " "@ + unit.text(),
        }
    }

    /// Renders the canonical text.
    pub fn to_string(&self) -> (r: String)
        ensures
            r@ == self.text(),
    {
        match self {
            SingleAxisParams::Width { width, unit } => {
                let mut acc = String::from_str("width ");
                let m = u8_text(*width);
                acc.append(m.as_str());
                acc.append(" ");
                let u = unit.to_string();
                acc.append(u.as_str());
                acc
            },
            SingleAxisParams::Height { height, unit } => {
                let mut acc = String::from_str("height ");
                let m = u8_text(*height);
                acc.append(m.as_str());
                acc.append(" ");
                let u = unit.to_string();
                acc.append(u.as_str());
                acc
            },
        }
    }
}

/// The sizes a `resize set` may name: one axis, or both.
#[derive(Debug, Clone, PartialEq, Eq)]
pub enum ResizeSetParams {
    Width { width: u8, unit: Units },
    Height { height: u8, unit: Units },
    Both { width: u8, height: u8, unit: Units },
}

impl ResizeSetParams {
    /// The canonical text of the target size.
    pub open spec fn text(self) -> Seq<char> {
        match self {
            ResizeSetParams::Width { width, unit } => "width "@ + dec_str(width as int) + " "@
                + unit.text(),
            ResizeSetParams::Height { height, unit } => "height "@ + dec_str(height as int)
                + " "@ + unit.text(),
            ResizeSetParams::Both { width, height, unit } => "width "@ + dec_str(width as int)
                + " "@ + unit.text() + " height "@ + dec_str(height as int) + " "@ + unit.text(),
        }
    }

    /// Renders the canonical text.
    pub fn to_string(&self) -> (r: String)
        ensures
            r@ == self.text(),
    {
        match self {
            ResizeSetParams::Width { width, unit } => {
                let mut acc = String::from_str("width ");
                let m = u8_text(*width);
                acc.append(m.as_str());
                acc.append(" ");
                let u = unit.to_string();
                acc.append(u.as_str());
                acc
            },
            ResizeSetParams::Height { height, unit } => {
                let mut acc = String::from_str("height ");
                let m = u8_text(*height);
                acc.append(m.as_str());
                acc.append(" ");
                let u = unit.to_string();
                acc.append(u.as_str());
                acc
            },
            ResizeSetParams::Both { width, height, unit } => {
                let mut acc = String::from_str("width ");
                let m = u8_text(*width);
                acc.append(m.as_str());
                acc.append(" ");
                let u = unit.to_string();
                acc.append(u.as_str());
                acc.append(" height ");
                let h = u8_text(*height);
                acc.append(h.as_str());
                acc.append(" ");
                let u2 = unit.to_string();
                acc.append(u2.as_str());
                acc
            },
        }
    }
}

/// The argument of the `resize` command: grow or shrink along one axis, or
/// set a target size.
#[derive(Debug, Clone, PartialEq, Eq)]
pub enum ResizeParams {
    Grow(SingleAxisParams),
    Shrink(SingleAxisParams),
    SetTo(ResizeSetParams),
}

impl ResizeParams {
    /// The canonical text of the argument.
    pub open spec fn text(self) -> Seq<char> {
        match self {
            ResizeParams::Grow(a) => "grow "@ + a.text(),
            ResizeParams::Shrink(a) => "shrink "@ + a.text(),
            ResizeParams::SetTo(s) => "set "@ + s.text(),
        }
    }

    /// Renders the canonical text.
    pub fn to_string(&self) -> (r: String)
        ensures
            r@ == self.text(),
    {
        match self {
            ResizeParams::Grow(a) => {
                let mut acc = String::from_str("grow ");
                let t = a.to_string();
                acc.append(t.as_str());
                acc
            },
            ResizeParams::Shrink(a) => {
                let mut acc = String::from_str("shrink ");
                let t = a.to_string();
                acc.append(t.as_str());
                acc
            },
            ResizeParams::SetTo(s) => {
                let mut acc = String::from_str("set ");
                let t = s.to_string();
                acc.append(t.as_str());
                acc
            },
        }
    }
}

} // verus!
