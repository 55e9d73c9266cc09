//! Argument shapes of the `focus` command.
use crate::sway::options::{Directional, Hierarchy, Relative};
use vstd::prelude::*;

verus! {

/// Where `focus` may point an output selector.
#[derive(Debug, Clone, PartialEq, Eq)]
pub enum FocusOutputOptions {
    Directional(Directional),
    Named(String),
}

impl FocusOutputOptions {
    /// The canonical text: a direction, or the output's name.
    pub open spec fn text(self) -> Seq<char> {
        match self {
            FocusOutputOptions::Directional(d) => d.text(),
            FocusOutputOptions::Named(n) => n@,
        }
    }

    /// Renders the canonical text.
    pub fn to_string(&self) -> (r: String)
        ensures
            r@ == self.text(),
    {
        match self {
            FocusOutputOptions::Directional(d) => d.to_string(),
            FocusOutputOptions::Named(n) => String::from_str(n.as_str()),
        }
    }
}

/// The argument of the `focus` command.
#[derive(Debug, Clone, PartialEq, Eq)]
pub enum FocusParams {
    Directional(Directional),
    Hierarchy(Hierarchy),
    Relative(Relative),
    Sibling(Relative),
    Output(FocusOutputOptions),
    Tiling,
    Floating,
    ModeToggle,
}

impl FocusParams {
    /// The canonical text of the argument.
    pub open spec fn text(self) -> Seq<char> {
        match self {
            FocusParams::Directional(d) => d.text(),
            FocusParams::Hierarchy(h) => h.text(),
            FocusParams::Relative(s) => s.text(),
            FocusParams::Sibling(s) => s.text() + " sibling"@,
            FocusParams::Output(o) => "output "@ + o.text(),
            FocusParams::Tiling => "tiling"@,
            FocusParams::Floating => "floating"@,
            FocusParams::ModeToggle => "mode_toggle"@,
        }
    }

    /// Renders the canonical text.
    pub fn to_string(&self) -> (r: String)
        ensures
            r@ == self.text(),
    {
        match self {
            FocusParams::Directional(d) => d.to_string(),
            FocusParams::Hierarchy(h) => h.to_string(),
            FocusParams::Relative(s) => s.to_string(),
            FocusParams::Sibling(s) => {
                let mut acc = s.to_string();
                acc.append(" sibling");
                acc
            },
            FocusParams::Output(o) => {
                let mut acc = String::from_str("output ");
                let t = o.to_string();
                acc.append(t.as_str());
                acc
            },
            FocusParams::Tiling => String::from_str("tiling"),
            FocusParams::Floating => String::from_str("floating"),
            FocusParams::ModeToggle => String::from_str("mode_toggle"),
        }
    }
}

} // verus!
