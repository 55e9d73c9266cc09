//! The command model: one tagged variant per compositor command, in two
//! families. `Commands` is the full set; `Config` holds the commands valid in
//! a configuration file and `Runtime` those valid at runtime, and both render
//! through the same canonical text rules. At the spec level all three share
//! the single shape `CommandsV`, and family membership is a predicate over it.
use crate::sway::layout::{Layout, LayoutCycleMulti, LayoutCycleSingle};
use crate::sway::options::{
    Bindsym, BindsymV, Directional, FocusSibling, Hierarchy, RelWorkspace, Size, Split,
    TogglableBool, Units,
};
use crate::text::{dec_str, int_str, join_with, u8_text};
use vstd::prelude::*;

verus! {

/// Subcommands of `focus`.
#[derive(Debug, Clone, PartialEq, Eq)]
pub enum SubFocus {
    Directional(Directional),
    Sibling(FocusSibling),
    Hierarchy(Hierarchy),
    OutputDirectional(Directional),
    OutputNamed(String),
}

/// The spec-level shape of a `focus` subcommand.
pub enum SubFocusV {
    Directional(Directional),
    Sibling(FocusSibling),
    Hierarchy(Hierarchy),
    OutputDirectional(Directional),
    OutputNamed(Seq<char>),
}

impl DeepView for SubFocus {
    type V = SubFocusV;

    open spec fn deep_view(&self) -> SubFocusV {
        match self {
            SubFocus::Directional(d) => SubFocusV::Directional(*d),
            SubFocus::Sibling(s) => SubFocusV::Sibling(*s),
            SubFocus::Hierarchy(h) => SubFocusV::Hierarchy(*h),
            SubFocus::OutputDirectional(d) => SubFocusV::OutputDirectional(*d),
            SubFocus::OutputNamed(n) => SubFocusV::OutputNamed(n@),
        }
    }
}

/// The canonical text of a `focus` subcommand.
pub open spec fn sub_focus_text(f: SubFocusV) -> Seq<char> {
    match f {
        SubFocusV::Directional(d) => d.text(),
        SubFocusV::Hierarchy(h) => h.text(),
        SubFocusV::Sibling(s) => s.text() + " sibling"@,
        SubFocusV::OutputDirectional(d) => "output "@ + d.text(),
        SubFocusV::OutputNamed(n) => "output "@ + n,
    }
}

impl SubFocus {
    /// Renders the canonical text.
    pub fn to_string(&self) -> (r: String)
        ensures
            r@ == sub_focus_text(self.deep_view()),
    {
        match self {
            SubFocus::Directional(d) => d.to_string(),
            SubFocus::Hierarchy(h) => h.to_string(),
            SubFocus::Sibling(s) => {
                let mut acc = s.to_string();
                acc.append(" sibling");
                acc
            },
            SubFocus::OutputDirectional(d) => {
                let mut acc = String::from_str("output ");
                let t = d.to_string();
                acc.append(t.as_str());
                acc
            },
            SubFocus::OutputNamed(n) => {
                let mut acc = String::from_str("output ");
                acc.append(n.as_str());
                acc
            },
        }
    }
}

/// Subcommands of `layout`.
#[derive(Debug, Clone, PartialEq, Eq)]
pub enum SubLayout {
    Fixed(Layout),
    Cycle(LayoutCycleSingle),
    CycleList(Vec<LayoutCycleMulti>),
}

/// The spec-level shape of a `layout` subcommand.
pub enum SubLayoutV {
    Fixed(Layout),
    Cycle(LayoutCycleSingle),
    CycleList(Seq<LayoutCycleMulti>),
}

impl DeepView for SubLayout {
    type V = SubLayoutV;

    open spec fn deep_view(&self) -> SubLayoutV {
        match self {
            SubLayout::Fixed(l) => SubLayoutV::Fixed(*l),
            SubLayout::Cycle(c) => SubLayoutV::Cycle(*c),
            SubLayout::CycleList(ls) => SubLayoutV::CycleList(ls.deep_view()),
        }
    }
}

/// The canonical text of a `layout` subcommand.
pub open spec fn sub_layout_text(l: SubLayoutV) -> Seq<char> {
    match l {
        SubLayoutV::Fixed(layout) => layout.text(),
        SubLayoutV::Cycle(c) => "toggle "@ + c.text(),
        SubLayoutV::CycleList(ls) => "toggle "@ + join_with(
            ls.map_values(|c: LayoutCycleMulti| c.text()),
            " "@,
        ),
    }
}

impl SubLayout {
    /// Renders the canonical text.
    pub fn to_string(&self) -> (r: String)
        ensures
            r@ == sub_layout_text(self.deep_view()),
    {
        match self {
            SubLayout::Fixed(layout) => layout.to_string(),
            SubLayout::Cycle(c) => {
                let mut acc = String::from_str("toggle ");
                let t = c.to_string();
                acc.append(t.as_str());
                acc
            },
            SubLayout::CycleList(ls) => {
                let mut texts: Vec<String> = Vec::new();
                let mut i: usize = 0;
                proof {
                    assert(texts.deep_view() =~= ls.deep_view().take(0).map_values(
                        |c: LayoutCycleMulti| c.text(),
                    ));
                }
                while i < ls.len()
                    invariant
                        0 <= i <= ls.len(),
                        ls.deep_view().len() == ls.len(),
                        texts.deep_view() == ls.deep_view().take(i as int).map_values(
                            |c: LayoutCycleMulti| c.text(),
                        ),
                    decreases ls.len() - i,
                {
                    let ghost old_texts = texts.deep_view();
                    let t = ls[i].to_string();
                    texts.push(t);
                    proof {
                        assert(texts.deep_view() =~= old_texts.push(
                            ls.deep_view()[i as int].text(),
                        ));
                        assert(texts.deep_view() =~= ls.deep_view().take(i + 1).map_values(
                            |c: LayoutCycleMulti| c.text(),
                        ));
                    }
                    i = i + 1;
                }
                proof {
                    assert(ls.deep_view().take(ls.len() as int) =~= ls.deep_view());
                }
                let mut acc = String::from_str("toggle ");
                let joined = crate::text::join_strings(&texts, " ");
                acc.append(joined.as_str());
                acc
            },
        }
    }
}

/// Subcommands of `move`.
#[derive(Debug, Clone, PartialEq, Eq)]
pub enum SubMove {
    Directional { direction: Directional, px: Option<u8> },
    Coordinates { x: i8, y: i8, x_unit: Units, y_unit: Units, absolute: bool },
    Center { absolute: bool },
    ToCursor,
    ToWorkspace(RelWorkspace),
    ToWorkspaceNamed(u8, Option<String>),
    ToWorkspaceOnOutput(FocusSibling),
    BackAndForth,
    ToDirectionalOutput(Directional),
    ToNamedOutput(String),
}

/// The spec-level shape of a `move` subcommand.
pub enum SubMoveV {
    Directional { direction: Directional, px: Option<u8> },
    Coordinates { x: i8, y: i8, x_unit: Units, y_unit: Units, absolute: bool },
    Center { absolute: bool },
    ToCursor,
    ToWorkspace(RelWorkspace),
    ToWorkspaceNamed(u8, Option<Seq<char>>),
    ToWorkspaceOnOutput(FocusSibling),
    BackAndForth,
    ToDirectionalOutput(Directional),
    ToNamedOutput(Seq<char>),
}

impl DeepView for SubMove {
    type V = SubMoveV;

    open spec fn deep_view(&self) -> SubMoveV {
        match self {
            SubMove::Directional { direction, px } => SubMoveV::Directional {
                direction: *direction,
                px: *px,
            },
            SubMove::Coordinates { x, y, x_unit, y_unit, absolute } => SubMoveV::Coordinates {
                x: *x,
                y: *y,
                x_unit: *x_unit,
                y_unit: *y_unit,
                absolute: *absolute,
            },
            SubMove::Center { absolute } => SubMoveV::Center { absolute: *absolute },
            SubMove::ToCursor => SubMoveV::ToCursor,
            SubMove::ToWorkspace(w) => SubMoveV::ToWorkspace(*w),
            SubMove::ToWorkspaceNamed(n, s) => SubMoveV::ToWorkspaceNamed(*n, s.deep_view()),
            SubMove::ToWorkspaceOnOutput(s) => SubMoveV::ToWorkspaceOnOutput(*s),
            SubMove::BackAndForth => SubMoveV::BackAndForth,
            SubMove::ToDirectionalOutput(d) => SubMoveV::ToDirectionalOutput(*d),
            SubMove::ToNamedOutput(n) => SubMoveV::ToNamedOutput(n@),
        }
    }
}

/// The canonical text of a `move` subcommand.
pub open spec fn sub_move_text(m: SubMoveV) -> Seq<char> {
    match m {
        SubMoveV::Directional { direction, px } => match px {
            Some(mag) => direction.text() + " "@ + dec_str(mag as int) + " px"@,
            None => direction.text(),
        },
        SubMoveV::Coordinates { x, y, x_unit, y_unit, absolute } => {
            let coords = int_str(x as int) + " "@ + x_unit.text() + " "@ + int_str(y as int)
                + " "@ + y_unit.text();
            if absolute {
                "absolute position "@ + coords
            } else {
                "position "@ + coords
            }
        },
        SubMoveV::Center { absolute } => {
            if absolute {
                "absolute position center"@
            } else {
                "position center"@
            }
        },
        SubMoveV::ToCursor => "position cursor"@,
        SubMoveV::ToWorkspace(w) => "container to workspace "@ + w.text(),
        SubMoveV::ToWorkspaceNamed(n, s) => match s {
            Some(name) => "container to workspace "@ + dec_str(n as int) + " "@ + name,
            None => "container to workspace "@ + dec_str(n as int),
        },
        SubMoveV::ToWorkspaceOnOutput(s) => "container to workspace "@ + s.text()
            + "_on_output"@,
        SubMoveV::BackAndForth => "container to workspace back_and_forth"@,
        SubMoveV::ToDirectionalOutput(d) => "container to output "@ + d.text(),
        SubMoveV::ToNamedOutput(n) => "container to output "@ + n,
    }
}

impl SubMove {
    /// Renders the canonical text.
    pub fn to_string(&self) -> (r: String)
        ensures
            r@ == sub_move_text(self.deep_view()),
    {
        match self {
            SubMove::Directional { direction, px } => {
                let mut acc = direction.to_string();
                match px {
                    Some(mag) => {
                        acc.append(" ");
                        let m = u8_text(*mag);
                        acc.append(m.as_str());
                        acc.append(" px");
                        acc
                    },
                    None => acc,
                }
            },
            SubMove::Coordinates { x, y, x_unit, y_unit, absolute } => {
                let mut acc = if *absolute {
                    String::from_str("absolute position ")
                } else {
                    String::from_str("position ")
                };
                let xs = crate::text::i8_text(*x);
                acc.append(xs.as_str());
                acc.append(" ");
                let xu = x_unit.to_string();
                acc.append(xu.as_str());
                acc.append(" ");
                let ys = crate::text::i8_text(*y);
                acc.append(ys.as_str());
                acc.append(" ");
                let yu = y_unit.to_string();
                acc.append(yu.as_str());
                acc
            },
            SubMove::Center { absolute } => {
                if *absolute {
                    String::from_str("absolute position center")
                } else {
                    String::from_str("position center")
                }
            },
            SubMove::ToCursor => String::from_str("position cursor"),
            SubMove::ToWorkspace(w) => {
                let mut acc = String::from_str("container to workspace ");
                let t = w.to_string();
                acc.append(t.as_str());
                acc
            },
            SubMove::ToWorkspaceNamed(n, s) => {
                let mut acc = String::from_str("container to workspace ");
                let num = u8_text(*n);
                acc.append(num.as_str());
                match s {
                    Some(name) => {
                        acc.append(" ");
                        acc.append(name.as_str());
                        acc
                    },
                    None => acc,
                }
            },
            SubMove::ToWorkspaceOnOutput(s) => {
                let mut acc = String::from_str("container to workspace ");
                let t = s.to_string();
                acc.append(t.as_str());
                acc.append("_on_output");
                acc
            },
            SubMove::BackAndForth => String::from_str("container to workspace back_and_forth"),
            SubMove::ToDirectionalOutput(d) => {
                let mut acc = String::from_str("container to output ");
                let t = d.to_string();
                acc.append(t.as_str());
                acc
            },
            SubMove::ToNamedOutput(n) => {
                let mut acc = String::from_str("container to output ");
                acc.append(n.as_str());
                acc
            },
        }
    }
}

/// The full command set. Each variant is one compositor command; `Config` and
/// `Runtime` below are its two families.
#[derive(Debug, PartialEq, Eq)]
pub enum Commands {
    Bar { bar_id: String, subcommands: String },
    Exit,
    Floating(TogglableBool),
    Focus(SubFocus),
    Layout(SubLayout),
    Move(SubMove),
    Reload,
    Resize { change: Size, x: Option<u8>, y: Option<u8>, unit: Units },
    Split(Split),
    Bindsym { flags: Vec<Bindsym>, keys: Vec<String>, command: Box<Runtime> },
    Exec(String),
    ExecAlways(String),
    Kill,
    SetVar { name: String, value: String },
    Workspace { number: u8, name: Option<String> },
    Else(String),
    Comment(String),
    Blank,
    Include(String),
}

/// The commands valid in a configuration file.
#[derive(Debug, PartialEq, Eq)]
pub enum Config {
    Bar { bar_id: String, subcommands: String },
    Bindsym { flags: Vec<Bindsym>, keys: Vec<String>, command: Box<Runtime> },
    Exec(String),
    ExecAlways(String),
    Kill,
    SetVar { name: String, value: String },
    Else(String),
    Comment(String),
    Blank,
    Include(String),
}

/// The commands valid at runtime.
#[derive(Debug, PartialEq, Eq)]
pub enum Runtime {
    Exit,
    Floating(TogglableBool),
    Focus(SubFocus),
    Layout(SubLayout),
    Move(SubMove),
    Reload,
    Resize { change: Size, x: Option<u8>, y: Option<u8>, unit: Units },
    Split(Split),
    Bindsym { flags: Vec<Bindsym>, keys: Vec<String>, command: Box<Runtime> },
    Exec(String),
    ExecAlways(String),
    Kill,
    SetVar { name: String, value: String },
    Workspace { number: u8, name: Option<String> },
    Else(String),
}

/// The spec-level shape shared by all three command types: one flat variant
/// set, with family membership as a predicate.
pub enum CommandsV {
    Bar { bar_id: Seq<char>, subcommands: Seq<char> },
    Exit,
    Floating(TogglableBool),
    Focus(SubFocusV),
    Layout(SubLayoutV),
    Move(SubMoveV),
    Reload,
    Resize { change: Size, x: Option<u8>, y: Option<u8>, unit: Units },
    Split(Split),
    Bindsym { flags: Seq<BindsymV>, keys: Seq<Seq<char>>, command: Box<CommandsV> },
    Exec(Seq<char>),
    ExecAlways(Seq<char>),
    Kill,
    SetVar { name: Seq<char>, value: Seq<char> },
    Workspace { number: u8, name: Option<Seq<char>> },
    Else(Seq<char>),
    Comment(Seq<char>),
    Blank,
    Include(Seq<char>),
}

/// Whether a command is valid in a configuration file.
pub open spec fn is_config_cmd(c: CommandsV) -> bool {
    match c {
        CommandsV::Bar { .. } => true,
        CommandsV::Bindsym { .. } => true,
        CommandsV::Exec(..) => true,
        CommandsV::ExecAlways(..) => true,
        CommandsV::Kill => true,
        CommandsV::SetVar { .. } => true,
        CommandsV::Else(..) => true,
        CommandsV::Comment(..) => true,
        CommandsV::Blank => true,
        CommandsV::Include(..) => true,
        _ => false,
    }
}

/// Whether a command is valid at runtime.
pub open spec fn is_runtime_cmd(c: CommandsV) -> bool {
    match c {
        CommandsV::Bar { .. } => false,
        CommandsV::Comment(..) => false,
        CommandsV::Blank => false,
        CommandsV::Include(..) => false,
        _ => true,
    }
}

/// The spec-level shape of a `Runtime` command.
pub open spec fn runtime_v(c: Runtime) -> CommandsV
    decreases c,
{
    match c {
        Runtime::Exit => CommandsV::Exit,
        Runtime::Floating(t) => CommandsV::Floating(t),
        Runtime::Focus(f) => CommandsV::Focus(f.deep_view()),
        Runtime::Layout(l) => CommandsV::Layout(l.deep_view()),
        Runtime::Move(m) => CommandsV::Move(m.deep_view()),
        Runtime::Reload => CommandsV::Reload,
        Runtime::Resize { change, x, y, unit } => CommandsV::Resize { change, x, y, unit },
        Runtime::Split(s) => CommandsV::Split(s),
        Runtime::Bindsym { flags, keys, command } => CommandsV::Bindsym {
            flags: flags.deep_view(),
            keys: keys.deep_view(),
            command: Box::new(runtime_v(*command)),
        },
        Runtime::Exec(s) => CommandsV::Exec(s@),
        Runtime::ExecAlways(s) => CommandsV::ExecAlways(s@),
        Runtime::Kill => CommandsV::Kill,
        Runtime::SetVar { name, value } => CommandsV::SetVar { name: name@, value: value@ },
        Runtime::Workspace { number, name } => CommandsV::Workspace {
            number,
            name: name.deep_view(),
        },
        Runtime::Else(s) => CommandsV::Else(s@),
    }
}

impl DeepView for Runtime {
    type V = CommandsV;

    open spec fn deep_view(&self) -> CommandsV {
        runtime_v(*self)
    }
}

impl DeepView for Config {
    type V = CommandsV;

    open spec fn deep_view(&self) -> CommandsV {
        match self {
            Config::Bar { bar_id, subcommands } => CommandsV::Bar {
                bar_id: bar_id@,
                subcommands: subcommands@,
            },
            Config::Bindsym { flags, keys, command } => CommandsV::Bindsym {
                flags: flags.deep_view(),
                keys: keys.deep_view(),
                command: Box::new(command.deep_view()),
            },
            Config::Exec(s) => CommandsV::Exec(s@),
            Config::ExecAlways(s) => CommandsV::ExecAlways(s@),
            Config::Kill => CommandsV::Kill,
            Config::SetVar { name, value } => CommandsV::SetVar { name: name@, value: value@ },
            Config::Else(s) => CommandsV::Else(s@),
            Config::Comment(s) => CommandsV::Comment(s@),
            Config::Blank => CommandsV::Blank,
            Config::Include(p) => CommandsV::Include(p@),
        }
    }
}

impl DeepView for Commands {
    type V = CommandsV;

    open spec fn deep_view(&self) -> CommandsV {
        match self {
            Commands::Bar { bar_id, subcommands } => CommandsV::Bar {
                bar_id: bar_id@,
                subcommands: subcommands@,
            },
            Commands::Exit => CommandsV::Exit,
            Commands::Floating(t) => CommandsV::Floating(*t),
            Commands::Focus(f) => CommandsV::Focus(f.deep_view()),
            Commands::Layout(l) => CommandsV::Layout(l.deep_view()),
            Commands::Move(m) => CommandsV::Move(m.deep_view()),
            Commands::Reload => CommandsV::Reload,
            Commands::Resize { change, x, y, unit } => CommandsV::Resize {
                change: *change,
                x: *x,
                y: *y,
                unit: *unit,
            },
            Commands::Split(s) => CommandsV::Split(*s),
            Commands::Bindsym { flags, keys, command } => CommandsV::Bindsym {
                flags: flags.deep_view(),
                keys: keys.deep_view(),
                command: Box::new(command.deep_view()),
            },
            Commands::Exec(s) => CommandsV::Exec(s@),
            Commands::ExecAlways(s) => CommandsV::ExecAlways(s@),
            Commands::Kill => CommandsV::Kill,
            Commands::SetVar { name, value } => CommandsV::SetVar { name: name@, value: value@ },
            Commands::Workspace { number, name } => CommandsV::Workspace {
                number: *number,
                name: name.deep_view(),
            },
            Commands::Else(s) => CommandsV::Else(s@),
            Commands::Comment(s) => CommandsV::Comment(s@),
            Commands::Blank => CommandsV::Blank,
            Commands::Include(p) => CommandsV::Include(p@),
        }
    }
}

/// Every `Runtime` command belongs to the runtime family.
pub proof fn lemma_runtime_is_runtime_cmd(c: Runtime)
    ensures
        is_runtime_cmd(c.deep_view()),
{
}

/// Every `Config` command belongs to the configuration family.
pub proof fn lemma_config_is_config_cmd(c: Config)
    ensures
        is_config_cmd(c.deep_view()),
{
}

/// Whether a command can be rendered: a key binding must not bind another
/// key binding, and a resize must name exactly one axis. Both hold of every
/// decoded command; a directly constructed command must satisfy them before
/// it is rendered.
pub open spec fn renderable(c: CommandsV) -> bool
    decreases c,
{
    match c {
        CommandsV::Bindsym { command, .. } => !(*command is Bindsym) && renderable(*command),
        CommandsV::Resize { x, y, .. } => (x is Some) != (y is Some),
        _ => true,
    }
}

/// The text of a `bindsym` line: the flags space-joined if there are any,
/// then the keys joined with `+`, then the bound command.
pub open spec fn bindsym_text_of(
    flags: Seq<BindsymV>,
    keys: Seq<Seq<char>>,
    inner: Seq<char>,
) -> Seq<char> {
    if flags.len() == 0 {
        "bindsym "@ + join_with(keys, "+"@) + " "@ + inner
    } else {
        "bindsym "@ + join_with(flags.map_values(|f: BindsymV| f.text()), " "@) + " "@
            + join_with(keys, "+"@) + " "@ + inner
    }
}

/// The canonical text of a command, by the fixed rendering rules. For a
/// command that is not renderable the text is left as the empty sequence.
pub open spec fn cmd_text(c: CommandsV) -> Seq<char>
    decreases c,
{
    match c {
        CommandsV::Bar { bar_id, subcommands } => "bar "@ + bar_id + " {\n"@ + subcommands
            + "\n}"@,
        CommandsV::Bindsym { flags, keys, command } => {
            if *command is Bindsym {
                Seq::empty()
            } else {
                bindsym_text_of(flags, keys, cmd_text(*command))
            }
        },
        CommandsV::Blank => Seq::empty(),
        CommandsV::Comment(content) => "# "@ + content,
        CommandsV::Else(command) => command,
        CommandsV::Exec(command) => "exec "@ + command,
        CommandsV::ExecAlways(command) => "exec_always "@ + command,
        CommandsV::Exit => "exit"@,
        CommandsV::Focus(f) => "focus "@ + sub_focus_text(f),
        CommandsV::Floating(v) => "floating "@ + v.text(),
        CommandsV::Include(path) => "include "@ + path,
        CommandsV::Kill => "kill"@,
        CommandsV::Layout(l) => "layout "@ + sub_layout_text(l),
        CommandsV::Move(m) => "move "@ + sub_move_text(m),
        CommandsV::Reload => "reload"@,
        CommandsV::Resize { change, x, y, unit } => match (x, y) {
            (Some(xv), None) => "resize "@ + change.text() + " width "@ + dec_str(xv as int)
                + " "@ + unit.text(),
            (None, Some(yv)) => "resize "@ + change.text() + " height "@ + dec_str(yv as int)
                + " "@ + unit.text(),
            _ => Seq::empty(),
        },
        CommandsV::SetVar { name, value } => "set $"@ + name + " "@ + value,
        CommandsV::Split(s) => "split "@ + s.text(),
        CommandsV::Workspace { number, name } => match name {
            Some(name_str) => "workspace "@ + dec_str(number as int) + " "@ + name_str,
            None => "workspace "@ + dec_str(number as int),
        },
    }
}

/// Renders a `bindsym` line from its flags, keys, and the already rendered
/// text of the bound command.
fn bindsym_line(flags: &Vec<Bindsym>, keys: &Vec<String>, inner: &str) -> (r: String)
    ensures
        r@ == bindsym_text_of(flags.deep_view(), keys.deep_view(), inner@),
{
    let key_str = crate::text::join_strings(keys, "+");
    let mut acc = String::from_str("bindsym ");
    if flags.len() > 0 {
        let mut texts: Vec<String> = Vec::new();
        let mut i: usize = 0;
        proof {
            assert(texts.deep_view() =~= flags.deep_view().take(0).map_values(
                |f: BindsymV| f.text(),
            ));
        }
        while i < flags.len()
            invariant
                0 <= i <= flags.len(),
                flags.deep_view().len() == flags.len(),
                texts.deep_view() == flags.deep_view().take(i as int).map_values(
                    |f: BindsymV| f.text(),
                ),
            decreases flags.len() - i,
        {
            let ghost old_texts = texts.deep_view();
            let t = flags[i].to_string();
            texts.push(t);
            proof {
                assert(texts.deep_view() =~= old_texts.push(flags.deep_view()[i as int].text()));
                assert(texts.deep_view() =~= flags.deep_view().take(i + 1).map_values(
                    |f: BindsymV| f.text(),
                ));
            }
            i = i + 1;
        }
        proof {
            assert(flags.deep_view().take(flags.len() as int) =~= flags.deep_view());
        }
        let flag_str = crate::text::join_strings(&texts, " ");
        acc.append(flag_str.as_str());
        acc.append(" ");
    }
    acc.append(key_str.as_str());
    acc.append(" ");
    acc.append(inner);
    acc
}

/// Renders a `resize` line; exactly one axis must be present.
fn resize_line(change: &Size, x: &Option<u8>, y: &Option<u8>, unit: &Units) -> (r: String)
    requires
        (x is Some) != (y is Some),
    ensures
        r@ == cmd_text(
            CommandsV::Resize { change: *change, x: *x, y: *y, unit: *unit },
        ),
{
    let mut acc = String::from_str("resize ");
    let c = change.to_string();
    acc.append(c.as_str());
    match (x, y) {
        (Some(xv), None) => {
            acc.append(" width ");
            let m = u8_text(*xv);
            acc.append(m.as_str());
        },
        (None, Some(yv)) => {
            acc.append(" height ");
            let m = u8_text(*yv);
            acc.append(m.as_str());
        },
        _ => {
            proof {
                assert(false);
            }
        },
    }
    acc.append(" ");
    let u = unit.to_string();
    acc.append(u.as_str());
    acc
}

/// Renders a `workspace` line: the number, then the name if one is present.
fn workspace_line(number: u8, name: &Option<String>) -> (r: String)
    ensures
        r@ == cmd_text(CommandsV::Workspace { number, name: name.deep_view() }),
{
    let mut acc = String::from_str("workspace ");
    let n = u8_text(number);
    acc.append(n.as_str());
    match name {
        Some(name_str) => {
            acc.append(" ");
            acc.append(name_str.as_str());
        },
        None => (),
    }
    acc
}

impl Runtime {
    /// Renders the canonical text of the command.
    pub fn to_string(&self) -> (r: String)
        requires
            renderable(self.deep_view()),
        ensures
            r@ == cmd_text(self.deep_view()),
        decreases *self,
    {
        match self {
            Runtime::Exit => String::from_str("exit"),
            Runtime::Floating(v) => {
                let mut acc = String::from_str("floating ");
                let t = v.to_string();
                acc.append(t.as_str());
                acc
            },
            Runtime::Focus(f) => {
                let mut acc = String::from_str("focus ");
                let t = f.to_string();
                acc.append(t.as_str());
                acc
            },
            Runtime::Layout(l) => {
                let mut acc = String::from_str("layout ");
                let t = l.to_string();
                acc.append(t.as_str());
                acc
            },
            Runtime::Move(m) => {
                let mut acc = String::from_str("move ");
                let t = m.to_string();
                acc.append(t.as_str());
                acc
            },
            Runtime::Reload => String::from_str("reload"),
            Runtime::Resize { change, x, y, unit } => resize_line(change, x, y, unit),
            Runtime::Split(s) => {
                let mut acc = String::from_str("split ");
                let t = s.to_string();
                acc.append(t.as_str());
                acc
            },
            Runtime::Bindsym { flags, keys, command } => {
                let inner = command.to_string();
                bindsym_line(flags, keys, inner.as_str())
            },
            Runtime::Exec(c) => {
                let mut acc = String::from_str("exec ");
                acc.append(c.as_str());
                acc
            },
            Runtime::ExecAlways(c) => {
                let mut acc = String::from_str("exec_always ");
                acc.append(c.as_str());
                acc
            },
            Runtime::Kill => String::from_str("kill"),
            Runtime::SetVar { name, value } => {
                let mut acc = String::from_str("set $");
                acc.append(name.as_str());
                acc.append(" ");
                acc.append(value.as_str());
                acc
            },
            Runtime::Workspace { number, name } => workspace_line(*number, name),
            Runtime::Else(c) => String::from_str(c.as_str()),
        }
    }
}

impl Config {
    /// Renders the canonical text of the command.
    pub fn to_string(&self) -> (r: String)
        requires
            renderable(self.deep_view()),
        ensures
            r@ == cmd_text(self.deep_view()),
    {
        match self {
            Config::Bar { bar_id, subcommands } => {
                let mut acc = String::from_str("bar ");
                acc.append(bar_id.as_str());
                acc.append(" {\n");
                acc.append(subcommands.as_str());
                acc.append("\n}");
                acc
            },
            Config::Bindsym { flags, keys, command } => {
                let inner = command.to_string();
                bindsym_line(flags, keys, inner.as_str())
            },
            Config::Exec(c) => {
                let mut acc = String::from_str("exec ");
                acc.append(c.as_str());
                acc
            },
            Config::ExecAlways(c) => {
                let mut acc = String::from_str("exec_always ");
                acc.append(c.as_str());
                acc
            },
            Config::Kill => String::from_str("kill"),
            Config::SetVar { name, value } => {
                let mut acc = String::from_str("set $");
                acc.append(name.as_str());
                acc.append(" ");
                acc.append(value.as_str());
                acc
            },
            Config::Else(c) => String::from_str(c.as_str()),
            Config::Comment(content) => {
                let mut acc = String::from_str("# ");
                acc.append(content.as_str());
                acc
            },
            Config::Blank => String::new(),
            Config::Include(path) => {
                let mut acc = String::from_str("include ");
                acc.append(path.as_str());
                acc
            },
        }
    }
}

impl Commands {
    /// Renders the canonical text of the command.
    pub fn to_string(&self) -> (r: String)
        requires
            renderable(self.deep_view()),
        ensures
            r@ == cmd_text(self.deep_view()),
    {
        match self {
            Commands::Bar { bar_id, subcommands } => {
                let mut acc = String::from_str("bar ");
                acc.append(bar_id.as_str());
                acc.append(" {\n");
                acc.append(subcommands.as_str());
                acc.append("\n}");
                acc
            },
            Commands::Exit => String::from_str("exit"),
            Commands::Floating(v) => {
                let mut acc = String::from_str("floating ");
                let t = v.to_string();
                acc.append(t.as_str());
                acc
            },
            Commands::Focus(f) => {
                let mut acc = String::from_str("focus ");
                let t = f.to_string();
                acc.append(t.as_str());
                acc
            },
            Commands::Layout(l) => {
                let mut acc = String::from_str("layout ");
                let t = l.to_string();
                acc.append(t.as_str());
                acc
            },
            Commands::Move(m) => {
                let mut acc = String::from_str("move ");
                let t = m.to_string();
                acc.append(t.as_str());
                acc
            },
            Commands::Reload => String::from_str("reload"),
            Commands::Resize { change, x, y, unit } => resize_line(change, x, y, unit),
            Commands::Split(s) => {
                let mut acc = String::from_str("split ");
                let t = s.to_string();
                acc.append(t.as_str());
                acc
            },
            Commands::Bindsym { flags, keys, command } => {
                let inner = command.to_string();
                bindsym_line(flags, keys, inner.as_str())
            },
            Commands::Exec(c) => {
                let mut acc = String::from_str("exec ");
                acc.append(c.as_str());
                acc
            },
            Commands::ExecAlways(c) => {
                let mut acc = String::from_str("exec_always ");
                acc.append(c.as_str());
                acc
            },
            Commands::Kill => String::from_str("kill"),
            Commands::SetVar { name, value } => {
                let mut acc = String::from_str("set $");
                acc.append(name.as_str());
                acc.append(" ");
                acc.append(value.as_str());
                acc
            },
            Commands::Workspace { number, name } => workspace_line(*number, name),
            Commands::Else(c) => String::from_str(c.as_str()),
            Commands::Comment(content) => {
                let mut acc = String::from_str("# ");
                acc.append(content.as_str());
                acc
            },
            Commands::Blank => String::new(),
            Commands::Include(path) => {
                let mut acc = String::from_str("include ");
                acc.append(path.as_str());
                acc
            },
        }
    }
}

impl Runtime {
    /// The same command as a member of the full set.
    pub fn to_commands(self) -> (r: Commands)
        ensures
            r.deep_view() == self.deep_view(),
    {
        match self {
            Runtime::Exit => Commands::Exit,
            Runtime::Floating(t) => Commands::Floating(t),
            Runtime::Focus(f) => Commands::Focus(f),
            Runtime::Layout(l) => Commands::Layout(l),
            Runtime::Move(m) => Commands::Move(m),
            Runtime::Reload => Commands::Reload,
            Runtime::Resize { change, x, y, unit } => Commands::Resize { change, x, y, unit },
            Runtime::Split(s) => Commands::Split(s),
            Runtime::Bindsym { flags, keys, command } => Commands::Bindsym {
                flags,
                keys,
                command,
            },
            Runtime::Exec(s) => Commands::Exec(s),
            Runtime::ExecAlways(s) => Commands::ExecAlways(s),
            Runtime::Kill => Commands::Kill,
            Runtime::SetVar { name, value } => Commands::SetVar { name, value },
            Runtime::Workspace { number, name } => Commands::Workspace { number, name },
            Runtime::Else(s) => Commands::Else(s),
        }
    }
}

impl Config {
    /// The same command as a member of the full set.
    pub fn to_commands(self) -> (r: Commands)
        ensures
            r.deep_view() == self.deep_view(),
    {
        match self {
            Config::Bar { bar_id, subcommands } => Commands::Bar { bar_id, subcommands },
            Config::Bindsym { flags, keys, command } => Commands::Bindsym {
                flags,
                keys,
                command,
            },
            Config::Exec(s) => Commands::Exec(s),
            Config::ExecAlways(s) => Commands::ExecAlways(s),
            Config::Kill => Commands::Kill,
            Config::SetVar { name, value } => Commands::SetVar { name, value },
            Config::Else(s) => Commands::Else(s),
            Config::Comment(s) => Commands::Comment(s),
            Config::Blank => Commands::Blank,
            Config::Include(p) => Commands::Include(p),
        }
    }
}


/// A runtime command and its spec-level shape agree on which variant they
/// are, for the variants the rendering conditions look at.
proof fn lemma_runtime_v_variants(c: Runtime)
    ensures
        (runtime_v(c) is Bindsym) == (c is Bindsym),
        (runtime_v(c) is Resize) == (c is Resize),
{
    match c {
        Runtime::Exit => assert(runtime_v(c) is Exit),
        Runtime::Floating(..) => assert(runtime_v(c) is Floating),
        Runtime::Focus(..) => assert(runtime_v(c) is Focus),
        Runtime::Layout(..) => assert(runtime_v(c) is Layout),
        Runtime::Move(..) => assert(runtime_v(c) is Move),
        Runtime::Reload => assert(runtime_v(c) is Reload),
        Runtime::Resize { .. } => assert(runtime_v(c) is Resize),
        Runtime::Split(..) => assert(runtime_v(c) is Split),
        Runtime::Bindsym { .. } => assert(runtime_v(c) is Bindsym),
        Runtime::Exec(..) => assert(runtime_v(c) is Exec),
        Runtime::ExecAlways(..) => assert(runtime_v(c) is ExecAlways),
        Runtime::Kill => assert(runtime_v(c) is Kill),
        Runtime::SetVar { .. } => assert(runtime_v(c) is SetVar),
        Runtime::Workspace { .. } => assert(runtime_v(c) is Workspace),
        Runtime::Else(..) => assert(runtime_v(c) is Else),
    }
}

impl Runtime {
    /// Whether the command can be rendered: no nested key binding anywhere,
    /// and every resize names exactly one axis.
    pub fn is_renderable(&self) -> (r: bool)
        ensures
            r == renderable(self.deep_view()),
        decreases *self,
    {
        proof {
            lemma_runtime_v_variants(*self);
        }
        match self {
            Runtime::Bindsym { command, .. } => {
                proof {
                    lemma_runtime_v_variants(**command);
                }
                match &**command {
                    Runtime::Bindsym { .. } => false,
                    _ => command.is_renderable(),
                }
            },
            Runtime::Resize { x, y, .. } => x.is_some() != y.is_some(),
            _ => true,
        }
    }
}

impl Config {
    /// Whether the command can be rendered: no nested key binding anywhere,
    /// and every resize names exactly one axis.
    pub fn is_renderable(&self) -> (r: bool)
        ensures
            r == renderable(self.deep_view()),
    {
        match self {
            Config::Bindsym { command, .. } => {
                proof {
                    lemma_runtime_v_variants(**command);
                }
                match &**command {
                    Runtime::Bindsym { .. } => false,
                    _ => command.is_renderable(),
                }
            },
            _ => true,
        }
    }
}

impl Commands {
    /// Whether the command can be rendered: no nested key binding anywhere,
    /// and every resize names exactly one axis.
    pub fn is_renderable(&self) -> (r: bool)
        ensures
            r == renderable(self.deep_view()),
    {
        match self {
            Commands::Bindsym { command, .. } => {
                proof {
                    lemma_runtime_v_variants(**command);
                }
                match &**command {
                    Runtime::Bindsym { .. } => false,
                    _ => command.is_renderable(),
                }
            },
            Commands::Resize { x, y, .. } => x.is_some() != y.is_some(),
            _ => true,
        }
    }
}

} // verus!
