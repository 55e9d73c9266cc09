//! Colors of window borders and title bars, per client class.
use vstd::prelude::*;

verus! {

/// The color groups a configuration can set, one per client class.
#[derive(Debug, Clone, PartialEq, Eq)]
pub enum ClientOpts {
    /// Kept only for i3 compatibility; the compositor ignores it.
    Background(String),
    /// The window that has focus.
    Focused(ClientColors),
    /// The most recently focused window in a container without focus.
    FocusedInactive(ClientColors),
    /// A view with a focused descendant container.
    FocusedTabTitle(ClientColors),
    /// Kept only for i3 compatibility; the compositor ignores it.
    Placeholder(ClientColors),
    /// A view without focus.
    Unfocused(ClientColors),
    /// A view with an urgency hint.
    Urgent(ClientColors),
}

/// One color group: border, background and text are required; the indicator
/// color and the child border color are optional, and the child border can
/// only be named together with the indicator.
#[derive(Debug, Clone, PartialEq, Eq)]
pub struct ClientColors {
    pub border: String,
    pub background: String,
    pub text: String,
    pub indicator: Option<String>,
    pub child_border: Option<String>,
}

impl ClientColors {
    /// The canonical text: the colors present, space-separated, in their
    /// fixed order; without an indicator the child border is left out too.
    pub open spec fn text_of(self) -> Seq<char> {
        match (self.indicator, self.child_border) {
            (Some(ind), Some(cb)) => self.border@ + " "@ + self.background@ + " "@ + self.text@
                + " "@ + ind@ + " "@ + cb@,
            (Some(ind), None) => self.border@ + " "@ + self.background@ + " "@ + self.text@
                + " "@ + ind@,
            (None, _) => self.border@ + " "@ + self.background@ + " "@ + self.text@,
        }
    }

    /// Renders the canonical text.
    pub fn to_string(&self) -> (r: String)
        ensures
            r@ == self.text_of(),
    {
        let mut acc = String::from_str(self.border.as_str());
        acc.append(" ");
        acc.append(self.background.as_str());
        acc.append(" ");
        acc.append(self.text.as_str());
        match (&self.indicator, &self.child_border) {
            (Some(ind), Some(cb)) => {
                acc.append(" ");
                acc.append(ind.as_str());
                acc.append(" ");
                acc.append(cb.as_str());
            },
            (Some(ind), None) => {
                acc.append(" ");
                acc.append(ind.as_str());
            },
            (None, _) => (),
        }
        acc
    }
}

} // verus!
