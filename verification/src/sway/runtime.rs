//! The full runtime command vocabulary, one variant per command, each with
//! its canonical line text.
use crate::sway::bind::{Bind, BindCodes, BindKeys};
use crate::sway::criteria::{criteria_vec_text, CriteriaVec};
use crate::sway::exec::ExecParams;
use crate::sway::focus::FocusParams;
use crate::sway::layout::LayoutParams;
use crate::sway::mov::MoveParams;
use crate::sway::options::{
    arg_map_text, ArgMap, Border, MaxRenderTimeOpts, RenameOpts, Split, Swap, TogglableBool,
    Workspace,
};
use crate::sway::resize::ResizeParams;
use crate::text::{dec_str, join_with};
use vstd::prelude::*;

verus! {

/// The spelling of a boolean argument.
pub open spec fn bool_text(b: bool) -> Seq<char> {
    if b {
        "true"@
    } else {
        "false"@
    }
}

/// Renders a boolean argument.
pub fn bool_string(b: bool) -> (r: String)
    ensures
        r@ == bool_text(b),
{
    if b {
        String::from_str("true")
    } else {
        String::from_str("false")
    }
}

/// A runtime command.
#[derive(Debug, PartialEq, Eq)]
pub enum Runtime {
    AllowTearing(bool),
    BindCode { flags: ArgMap<Bind>, keys: BindCodes, command: Box<Runtime> },
    BindSym { flags: ArgMap<Bind>, keys: BindKeys, command: Box<Runtime> },
    Border(Border),
    Exec(ExecParams),
    ExecAlways(ExecParams),
    Exit,
    Floating(TogglableBool),
    Focus(FocusParams),
    CriteriaFocus(CriteriaVec),
    ForWindow { criteria: CriteriaVec, command: Box<Runtime> },
    Kill,
    Layout(LayoutParams),
    MaxRenderTime(MaxRenderTimeOpts),
    Mode(String),
    Move(MoveParams),
    Nop,
    Reload,
    Rename(RenameOpts),
    Resize(ResizeParams),
    Scratchpad,
    ShortcutsInhibitor(bool),
    Split(Split),
    SetVar { name: String, value: String },
    Sticky(TogglableBool),
    Swap(Swap),
    TitleFormat(String),
    Workspace(Workspace),
}

/// The canonical line text of a runtime command.
pub open spec fn runtime_text(c: Runtime) -> Seq<char>
    decreases c,
{
    match c {
        Runtime::AllowTearing(b) => "allow_tearing "@ + bool_text(b),
        Runtime::BindCode { flags, keys, command } => "bindsym "@ + arg_map_text(flags.0@)
            + join_with(keys.0@.map_values(|n: u8| dec_str(n as int)), "+"@) + " "@
            + runtime_text(*command),
        Runtime::BindSym { flags, keys, command } => "bindsym "@ + arg_map_text(flags.0@)
            + join_with(keys.0.deep_view(), "+"@) + " "@ + runtime_text(*command),
        Runtime::Border(b) => "border "@ + b.text(),
        Runtime::Exec(e) => "exec "@ + e.text(),
        Runtime::ExecAlways(e) => "exec_always "@ + e.text(),
        Runtime::Exit => "exit"@,
        Runtime::Floating(t) => "floating "@ + t.text(),
        Runtime::Focus(f) => "focus "@ + f.text(),
        Runtime::CriteriaFocus(cv) => criteria_vec_text(cv.0@) + " focus"@,
        Runtime::ForWindow { criteria, command } => "for_window "@ + criteria_vec_text(
            criteria.0@,
        ) + " "@ + runtime_text(*command),
        Runtime::Kill => "kill"@,
        Runtime::Layout(l) => "layout "@ + l.text(),
        Runtime::MaxRenderTime(m) => "max_render_time "@ + m.text(),
        Runtime::Mode(m) => "mode "@ + m@,
        Runtime::Move(m) => "move "@ + m.text(),
        Runtime::Nop => "nop"@,
        Runtime::Reload => "reload"@,
        Runtime::Rename(r) => "rename workspace "@ + r.deep_view().text(),
        Runtime::Resize(r) => "resize "@ + r.text(),
        Runtime::Scratchpad => "scratchpad show"@,
        Runtime::ShortcutsInhibitor(b) => "shortcuts_inhibitor "@ + bool_text(b),
        Runtime::Split(s) => "split "@ + s.text(),
        Runtime::SetVar { name, value } => "set $"@ + name@ + " "@ + value@,
        Runtime::Sticky(t) => "sticky "@ + t.text(),
        Runtime::Swap(s) => "swap container with "@ + s.deep_view().text(),
        Runtime::TitleFormat(t) => "title_format "@ + t@,
        Runtime::Workspace(w) => "workspace "@ + w.deep_view().text(),
    }
}

impl Runtime {
    /// Renders the canonical line text of the command.
    pub fn to_string(&self) -> (r: String)
        ensures
            r@ == runtime_text(*self),
        decreases *self,
    {
        match self {
            Runtime::AllowTearing(b) => {
                let mut acc = String::from_str("allow_tearing ");
                let t = bool_string(*b);
                acc.append(t.as_str());
                acc
            },
            Runtime::BindCode { flags, keys, command } => {
                let mut acc = String::from_str("bindsym ");
                let f = flags.to_string();
                acc.append(f.as_str());
                let k = keys.to_string();
                acc.append(k.as_str());
                acc.append(" ");
                let inner = command.to_string();
                acc.append(inner.as_str());
                acc
            },
            Runtime::BindSym { flags, keys, command } => {
                let mut acc = String::from_str("bindsym ");
                let f = flags.to_string();
                acc.append(f.as_str());
                let k = keys.to_string();
                acc.append(k.as_str());
                acc.append(" ");
                let inner = command.to_string();
                acc.append(inner.as_str());
                acc
            },
            Runtime::Border(b) => {
                let mut acc = String::from_str("border ");
                let t = b.to_string();
                acc.append(t.as_str());
                acc
            },
            Runtime::Exec(e) => {
                let mut acc = String::from_str("exec ");
                let t = e.to_string();
                acc.append(t.as_str());
                acc
            },
            Runtime::ExecAlways(e) => {
                let mut acc = String::from_str("exec_always ");
                let t = e.to_string();
                acc.append(t.as_str());
                acc
            },
            Runtime::Exit => String::from_str("exit"),
            Runtime::Floating(t) => {
                let mut acc = String::from_str("floating ");
                let s = t.to_string();
                acc.append(s.as_str());
                acc
            },
            Runtime::Focus(f) => {
                let mut acc = String::from_str("focus ");
                let t = f.to_string();
                acc.append(t.as_str());
                acc
            },
            Runtime::CriteriaFocus(cv) => {
                let mut acc = cv.to_string();
                acc.append(" focus");
                acc
            },
            Runtime::ForWindow { criteria, command } => {
                let mut acc = String::from_str("for_window ");
                let c = criteria.to_string();
                acc.append(c.as_str());
                acc.append(" ");
                let inner = command.to_string();
                acc.append(inner.as_str());
                acc
            },
            Runtime::Kill => String::from_str("kill"),
            Runtime::Layout(l) => {
                let mut acc = String::from_str("layout ");
                let t = l.to_string();
                acc.append(t.as_str());
                acc
            },
            Runtime::MaxRenderTime(m) => {
                let mut acc = String::from_str("max_render_time ");
                let t = m.to_string();
                acc.append(t.as_str());
                acc
            },
            Runtime::Mode(m) => {
                let mut acc = String::from_str("mode ");
                acc.append(m.as_str());
                acc
            },
            Runtime::Move(m) => {
                let mut acc = String::from_str("move ");
                let t = m.to_string();
                acc.append(t.as_str());
                acc
            },
            Runtime::Nop => String::from_str("nop"),
            Runtime::Reload => String::from_str("reload"),
            Runtime::Rename(r) => {
                let mut acc = String::from_str("rename workspace ");
                let t = r.to_string();
                acc.append(t.as_str());
                acc
            },
            Runtime::Resize(r) => {
                let mut acc = String::from_str("resize ");
                let t = r.to_string();
                acc.append(t.as_str());
                acc
            },
            Runtime::Scratchpad => String::from_str("scratchpad show"),
            Runtime::ShortcutsInhibitor(b) => {
                let mut acc = String::from_str("shortcuts_inhibitor ");
                let t = bool_string(*b);
                acc.append(t.as_str());
                acc
            },
            Runtime::Split(s) => {
                let mut acc = String::from_str("split ");
                let t = s.to_string();
                acc.append(t.as_str());
                acc
            },
            Runtime::SetVar { name, value } => {
                let mut acc = String::from_str("set $");
                acc.append(name.as_str());
                acc.append(" ");
                acc.append(value.as_str());
                acc
            },
            Runtime::Sticky(t) => {
                let mut acc = String::from_str("sticky ");
                let s = t.to_string();
                acc.append(s.as_str());
                acc
            },
            Runtime::Swap(s) => {
                let mut acc = String::from_str("swap container with ");
                let t = s.to_string();
                acc.append(t.as_str());
                acc
            },
            Runtime::TitleFormat(t) => {
                let mut acc = String::from_str("title_format ");
                acc.append(t.as_str());
                acc
            },
            Runtime::Workspace(w) => {
                let mut acc = String::from_str("workspace ");
                let t = w.to_string();
                acc.append(t.as_str());
                acc
            },
        }
    }
}

} // verus!
