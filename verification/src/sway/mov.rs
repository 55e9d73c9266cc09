//! Argument shapes of the `move` command.
use crate::sway::options::{Directional, Relative, RelativeWorkspace, Units, Workspace};
use crate::text::{dec_str, u8_text};
use vstd::prelude::*;

verus! {

/// Where a container or workspace moves to among outputs.
#[derive(Debug, Clone, PartialEq, Eq)]
pub enum MoveToOutputParams {
    Directional(Directional),
    Current,
    Named(String),
}

impl MoveToOutputParams {
    /// The canonical text of the selector.
    pub open spec fn text(self) -> Seq<char> {
        match self {
            MoveToOutputParams::Directional(d) => d.text(),
            MoveToOutputParams::Current => "current"@,
            MoveToOutputParams::Named(n) => n@,
        }
    }

    /// Renders the canonical text.
    pub fn to_string(&self) -> (r: String)
        ensures
            r@ == self.text(),
    {
        match self {
            MoveToOutputParams::Directional(d) => d.to_string(),
            MoveToOutputParams::Current => String::from_str("current"),
            MoveToOutputParams::Named(n) => String::from_str(n.as_str()),
        }
    }
}

/// Which workspace a container moves to.
#[derive(Debug, Clone, PartialEq, Eq)]
pub enum MoveContainerToWorkspaceParams {
    Relative(RelativeWorkspace),
    OnOutput(Relative),
    BackAndForth,
    Workspace(Workspace),
}

impl MoveContainerToWorkspaceParams {
    /// The canonical text of the selector.
    pub open spec fn text(self) -> Seq<char> {
        match self {
            MoveContainerToWorkspaceParams::Relative(w) => w.text(),
            MoveContainerToWorkspaceParams::OnOutput(s) => s.text() + "_on_output"@,
            MoveContainerToWorkspaceParams::BackAndForth => "back_and_forth"@,
            MoveContainerToWorkspaceParams::Workspace(w) => w.deep_view().text(),
        }
    }

    /// Renders the canonical text.
    pub fn to_string(&self) -> (r: String)
        ensures
            r@ == self.text(),
    {
        match self {
            MoveContainerToWorkspaceParams::Relative(w) => w.to_string(),
            MoveContainerToWorkspaceParams::OnOutput(s) => {
                let mut acc = s.to_string();
                acc.append("_on_output");
                acc
            },
            MoveContainerToWorkspaceParams::BackAndForth => String::from_str("back_and_forth"),
            MoveContainerToWorkspaceParams::Workspace(w) => w.to_string(),
        }
    }
}

/// Where a container moves to.
#[derive(Debug, Clone, PartialEq, Eq)]
pub enum MoveContainerParams {
    Workspace(MoveContainerToWorkspaceParams),
    Output(MoveToOutputParams),
    Scratchpad,
    Mark(String),
}

impl MoveContainerParams {
    /// The canonical text of the destination.
    pub open spec fn text(self) -> Seq<char> {
        match self {
            MoveContainerParams::Workspace(w) => "workspace "@ + w.text(),
            MoveContainerParams::Output(o) => "output "@ + o.text(),
            MoveContainerParams::Scratchpad => "scratchpad"@,
            MoveContainerParams::Mark(m) => "mark "@ + m@,
        }
    }

    /// Renders the canonical text.
    pub fn to_string(&self) -> (r: String)
        ensures
            r@ == self.text(),
    {
        match self {
            MoveContainerParams::Workspace(w) => {
                let mut acc = String::from_str("workspace ");
                let t = w.to_string();
                acc.append(t.as_str());
                acc
            },
            MoveContainerParams::Output(o) => {
                let mut acc = String::from_str("output ");
                let t = o.to_string();
                acc.append(t.as_str());
                acc
            },
            MoveContainerParams::Scratchpad => String::from_str("scratchpad"),
            MoveContainerParams::Mark(m) => {
                let mut acc = String::from_str("mark ");
                acc.append(m.as_str());
                acc
            },
        }
    }
}

/// A position on the current output.
#[derive(Debug, Clone, PartialEq, Eq)]
pub enum PositionParams {
    Center,
    Cursor,
    Coordinates { x: u8, y: u8, unit: Units },
}

impl PositionParams {
    /// The canonical text of the position.
    pub open spec fn text(self) -> Seq<char> {
        match self {
            PositionParams::Center => "center"@,
            PositionParams::Cursor => "cursor"@,
            PositionParams::Coordinates { x, y, unit } => dec_str(x as int) + " "@ + unit.text()
                + " "@ + dec_str(y as int) + " "@ + unit.text(),
        }
    }

    /// Renders the canonical text.
    pub fn to_string(&self) -> (r: String)
        ensures
            r@ == self.text(),
    {
        match self {
            PositionParams::Center => String::from_str("center"),
            PositionParams::Cursor => String::from_str("cursor"),
            PositionParams::Coordinates { x, y, unit } => {
                let mut acc = u8_text(*x);
                acc.append(" ");
                let u = unit.to_string();
                acc.append(u.as_str());
                acc.append(" ");
                let ys = u8_text(*y);
                acc.append(ys.as_str());
                acc.append(" ");
                let u2 = unit.to_string();
                acc.append(u2.as_str());
                acc
            },
        }
    }
}

/// A position relative to all outputs.
#[derive(Debug, Clone, PartialEq, Eq)]
pub enum AbsolutePositionParams {
    Center,
    Coordinates { x: u8, y: u8 },
}

impl AbsolutePositionParams {
    /// The canonical text of the position; coordinates are in pixels.
    pub open spec fn text(self) -> Seq<char> {
        match self {
            AbsolutePositionParams::Center => "center"@,
            AbsolutePositionParams::Coordinates { x, y } => dec_str(x as int) + " px "@ + dec_str(
                y as int,
            ) + " px"@,
        }
    }

    /// Renders the canonical text.
    pub fn to_string(&self) -> (r: String)
        ensures
            r@ == self.text(),
    {
        match self {
            AbsolutePositionParams::Center => String::from_str("center"),
            AbsolutePositionParams::Coordinates { x, y } => {
                let mut acc = u8_text(*x);
                acc.append(" px ");
                let ys = u8_text(*y);
                acc.append(ys.as_str());
                acc.append(" px");
                acc
            },
        }
    }
}

/// The argument of the `move` command.
#[derive(Debug, Clone, PartialEq, Eq)]
pub enum MoveParams {
    Directional(Directional),
    Position(PositionParams),
    AbsolutePosition(AbsolutePositionParams),
    Workspace(MoveContainerParams),
    Output(MoveToOutputParams),
}

impl MoveParams {
    /// The canonical text of the argument.
    pub open spec fn text(self) -> Seq<char> {
        match self {
            MoveParams::Directional(d) => d.text(),
            MoveParams::Position(p) => "position "@ + p.text(),
            MoveParams::AbsolutePosition(p) => "absolute position "@ + p.text(),
            MoveParams::Workspace(w) => "container to "@ + w.text(),
            MoveParams::Output(o) => "workspace to output "@ + o.text(),
        }
    }

    /// Renders the canonical text.
    pub fn to_string(&self) -> (r: String)
        ensures
            r@ == self.text(),
    {
        match self {
            MoveParams::Directional(d) => d.to_string(),
            MoveParams::Position(p) => {
                let mut acc = String::from_str("position ");
                let t = p.to_string();
                acc.append(t.as_str());
                acc
            },
            MoveParams::AbsolutePosition(p) => {
                let mut acc = String::from_str("absolute position ");
                let t = p.to_string();
                acc.append(t.as_str());
                acc
            },
            MoveParams::Workspace(w) => {
                let mut acc = String::from_str("container to ");
                let t = w.to_string();
                acc.append(t.as_str());
                acc
            },
            MoveParams::Output(o) => {
                let mut acc = String::from_str("workspace to output ");
                let t = o.to_string();
                acc.append(t.as_str());
                acc
            },
        }
    }
}

} // verus!
