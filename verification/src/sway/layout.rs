//! Argument shapes of the `layout` command: fixed layouts, and the layout
//! cycles that `layout toggle` steps through.
use crate::sway::options::{arg_list_text, Arg, ArgList};
use vstd::prelude::*;

verus! {

/// A fixed container layout.
#[derive(Debug, Clone, PartialEq, Eq)]
pub enum Layout {
    Default,
    Stacking,
    Tabbed,
    SplitH,
    SplitV,
}

impl Layout {
    /// The canonical spelling.
    pub open spec fn text(self) -> Seq<char> {
        match self {
            Layout::Default => "default"@,
            Layout::Stacking => "stacking"@,
            Layout::Tabbed => "tabbed"@,
            Layout::SplitH => "splith"@,
            Layout::SplitV => "splitv"@,
        }
    }

    /// Renders the canonical spelling.
    pub fn to_string(&self) -> (r: String)
        ensures
            r@ == self.text(),
    {
        match self {
            Layout::Default => String::from_str("default"),
            Layout::Stacking => String::from_str("stacking"),
            Layout::Tabbed => String::from_str("tabbed"),
            Layout::SplitH => String::from_str("splith"),
            Layout::SplitV => String::from_str("splitv"),
        }
    }
}

impl DeepView for Layout {
    type V = Layout;

    open spec fn deep_view(&self) -> Layout {
        *self
    }
}

/// The layouts a configuration may name as the default workspace layout.
#[derive(Debug, Clone, PartialEq, Eq)]
pub enum ConfigLayout {
    Default,
    Stacking,
    Tabbed,
}

impl ConfigLayout {
    /// The canonical spelling.
    pub open spec fn text(self) -> Seq<char> {
        match self {
            ConfigLayout::Default => "default"@,
            ConfigLayout::Stacking => "stacking"@,
            ConfigLayout::Tabbed => "tabbed"@,
        }
    }

    /// Renders the canonical spelling.
    pub fn to_string(&self) -> (r: String)
        ensures
            r@ == self.text(),
    {
        match self {
            ConfigLayout::Default => String::from_str("default"),
            ConfigLayout::Stacking => String::from_str("stacking"),
            ConfigLayout::Tabbed => String::from_str("tabbed"),
        }
    }
}

impl DeepView for ConfigLayout {
    type V = ConfigLayout;

    open spec fn deep_view(&self) -> ConfigLayout {
        *self
    }
}

/// Every layout a cycle may name, in one vocabulary.
#[derive(Debug, Clone, PartialEq, Eq)]
pub enum LayoutCycle {
    Stacking,
    Tabbed,
    Split,
    SplitH,
    SplitV,
    All,
}

impl LayoutCycle {
    /// The canonical spelling.
    pub open spec fn text(self) -> Seq<char> {
        match self {
            LayoutCycle::Stacking => "stacking"@,
            LayoutCycle::Tabbed => "tabbed"@,
            LayoutCycle::Split => "split"@,
            LayoutCycle::SplitH => "splith"@,
            LayoutCycle::SplitV => "splitv"@,
            LayoutCycle::All => "all"@,
        }
    }

    /// Renders the canonical spelling.
    pub fn to_string(&self) -> (r: String)
        ensures
            r@ == self.text(),
    {
        match self {
            LayoutCycle::Stacking => String::from_str("stacking"),
            LayoutCycle::Tabbed => String::from_str("tabbed"),
            LayoutCycle::Split => String::from_str("split"),
            LayoutCycle::SplitH => String::from_str("splith"),
            LayoutCycle::SplitV => String::from_str("splitv"),
            LayoutCycle::All => String::from_str("all"),
        }
    }
}

impl DeepView for LayoutCycle {
    type V = LayoutCycle;

    open spec fn deep_view(&self) -> LayoutCycle {
        *self
    }
}

/// The cycles `layout toggle` accepts with a single argument.
#[derive(Debug, Clone, PartialEq, Eq)]
pub enum LayoutCycleSingle {
    Split,
    All,
}

impl LayoutCycleSingle {
    /// The canonical spelling.
    pub open spec fn text(self) -> Seq<char> {
        match self {
            LayoutCycleSingle::Split => "split"@,
            LayoutCycleSingle::All => "all"@,
        }
    }

    /// Renders the canonical spelling.
    pub fn to_string(&self) -> (r: String)
        ensures
            r@ == self.text(),
    {
        match self {
            LayoutCycleSingle::Split => String::from_str("split"),
            LayoutCycleSingle::All => String::from_str("all"),
        }
    }
}

impl DeepView for LayoutCycleSingle {
    type V = LayoutCycleSingle;

    open spec fn deep_view(&self) -> LayoutCycleSingle {
        *self
    }
}

/// The layouts a multi-step cycle may list.
#[derive(Debug, Clone, PartialEq, Eq)]
pub enum LayoutCycleMulti {
    Stacking,
    Tabbed,
    Split,
    SplitH,
    SplitV,
}

impl LayoutCycleMulti {
    /// The canonical spelling.
    pub open spec fn text(self) -> Seq<char> {
        match self {
            LayoutCycleMulti::Stacking => "stacking"@,
            LayoutCycleMulti::Tabbed => "tabbed"@,
            LayoutCycleMulti::Split => "split"@,
            LayoutCycleMulti::SplitH => "splith"@,
            LayoutCycleMulti::SplitV => "splitv"@,
        }
    }

    /// Renders the canonical spelling.
    pub fn to_string(&self) -> (r: String)
        ensures
            r@ == self.text(),
    {
        match self {
            LayoutCycleMulti::Stacking => String::from_str("stacking"),
            LayoutCycleMulti::Tabbed => String::from_str("tabbed"),
            LayoutCycleMulti::Split => String::from_str("split"),
            LayoutCycleMulti::SplitH => String::from_str("splith"),
            LayoutCycleMulti::SplitV => String::from_str("splitv"),
        }
    }
}

impl DeepView for LayoutCycleMulti {
    type V = LayoutCycleMulti;

    open spec fn deep_view(&self) -> LayoutCycleMulti {
        *self
    }
}

impl Arg for LayoutCycleMulti {
    open spec fn text_v(&self) -> Seq<char> {
        self.text()
    }

    fn arg_text(&self) -> (r: String) {
        self.to_string()
    }
}

/// The argument of a `layout toggle`: one cycle name, or a list of layouts.
#[derive(Debug, Clone, PartialEq, Eq)]
pub enum LayoutCycleParams {
    Single(LayoutCycleSingle),
    Multi(ArgList<LayoutCycleMulti>),
}

impl LayoutCycleParams {
    /// The canonical text: a single cycle name as is; a list as each layout
    /// followed by one space.
    pub open spec fn text(self) -> Seq<char> {
        match self {
            LayoutCycleParams::Single(c) => c.text(),
            LayoutCycleParams::Multi(l) => arg_list_text(l.0@),
        }
    }

    /// Renders the canonical text.
    pub fn to_string(&self) -> (r: String)
        ensures
            r@ == self.text(),
    {
        match self {
            LayoutCycleParams::Single(c) => c.to_string(),
            LayoutCycleParams::Multi(l) => l.to_string(),
        }
    }
}

/// The argument of the `layout` command: set a layout, or toggle a cycle.
#[derive(Debug, Clone, PartialEq, Eq)]
pub enum LayoutParams {
    Fixed(Layout),
    Cycle(LayoutCycleParams),
}

impl LayoutParams {
    /// The canonical text: the layout itself, or `toggle` and the cycle.
    pub open spec fn text(self) -> Seq<char> {
        match self {
            LayoutParams::Fixed(l) => l.text(),
            LayoutParams::Cycle(c) => "toggle "@ + c.text(),
        }
    }

    /// Renders the canonical text.
    pub fn to_string(&self) -> (r: String)
        ensures
            r@ == self.text(),
    {
        match self {
            LayoutParams::Fixed(l) => l.to_string(),
            LayoutParams::Cycle(c) => {
                let mut acc = String::from_str("toggle ");
                let t = c.to_string();
                acc.append(t.as_str());
                acc
            },
        }
    }
}

} // verus!
