//! Value domains: the closed vocabularies that command arguments draw from,
//! each with its single canonical text form, plus the small argument-list
//! containers that commands render their flag sets with.
use crate::text::{dec_str, join_with, u8_text};
use vstd::prelude::*;

verus! {

/// A three-valued boolean: on, off, or flip the current state.
#[derive(Debug, Clone, PartialEq, Eq)]
pub enum TogglableBool {
    Enable,
    Disable,
    Toggle,
}

impl TogglableBool {
    /// The canonical spelling.
    pub open spec fn text(self) -> Seq<char> {
        match self {
            TogglableBool::Enable => "enable"@,
            TogglableBool::Disable => "disable"@,
            TogglableBool::Toggle => "toggle"@,
        }
    }

    /// Renders the canonical spelling.
    pub fn to_string(&self) -> (r: String)
        ensures
            r@ == self.text(),
    {
        match self {
            TogglableBool::Enable => String::from_str("enable"),
            TogglableBool::Disable => String::from_str("disable"),
            TogglableBool::Toggle => String::from_str("toggle"),
        }
    }
}

impl DeepView for TogglableBool {
    type V = TogglableBool;

    open spec fn deep_view(&self) -> TogglableBool {
        *self
    }
}

/// The argument of the `split` command.
#[derive(Debug, Clone, PartialEq, Eq)]
pub enum Split {
    Horizontal,
    Vertical,
    NoSplit,
}

impl Split {
    /// The canonical spelling.
    pub open spec fn text(self) -> Seq<char> {
        match self {
            Split::Horizontal => "horizontal"@,
            Split::Vertical => "vertical"@,
            Split::NoSplit => "none"@,
        }
    }

    /// Renders the canonical spelling.
    pub fn to_string(&self) -> (r: String)
        ensures
            r@ == self.text(),
    {
        match self {
            Split::Horizontal => String::from_str("horizontal"),
            Split::Vertical => String::from_str("vertical"),
            Split::NoSplit => String::from_str("none"),
        }
    }
}

impl DeepView for Split {
    type V = Split;

    open spec fn deep_view(&self) -> Split {
        *self
    }
}

/// A workspace argument: a bare number, or a number with a name.
#[derive(Debug, Clone, PartialEq, Eq)]
pub enum Workspace {
    Numeric(u8),
    Named { number: u8, name: String },
}

/// The spec-level shape of a `Workspace`.
pub enum WorkspaceV {
    Numeric(u8),
    Named { number: u8, name: Seq<char> },
}

impl WorkspaceV {
    /// The canonical text: the number, then the name if one is present.
    pub open spec fn text(self) -> Seq<char> {
        match self {
            WorkspaceV::Numeric(n) => dec_str(n as int),
            WorkspaceV::Named { number, name } => dec_str(number as int) + " "@ + name,
        }
    }
}

impl DeepView for Workspace {
    type V = WorkspaceV;

    open spec fn deep_view(&self) -> WorkspaceV {
        match self {
            Workspace::Numeric(n) => WorkspaceV::Numeric(*n),
            Workspace::Named { number, name } => WorkspaceV::Named {
                number: *number,
                name: name@,
            },
        }
    }
}

impl Workspace {
    /// Renders the canonical text of the argument.
    pub fn to_string(&self) -> (r: String)
        ensures
            r@ == self.deep_view().text(),
    {
        match self {
            Workspace::Numeric(n) => u8_text(*n),
            Workspace::Named { number, name } => {
                let mut acc = u8_text(*number);
                acc.append(" ");
                acc.append(name.as_str());
                acc
            },
        }
    }
}

/// Parent or child of the focused container.
#[derive(Debug, Clone, PartialEq, Eq)]
pub enum Hierarchy {
    Parent,
    Child,
}

impl Hierarchy {
    /// The canonical spelling.
    pub open spec fn text(self) -> Seq<char> {
        match self {
            Hierarchy::Parent => "parent"@,
            Hierarchy::Child => "child"@,
        }
    }

    /// Renders the canonical spelling.
    pub fn to_string(&self) -> (r: String)
        ensures
            r@ == self.text(),
    {
        match self {
            Hierarchy::Parent => String::from_str("parent"),
            Hierarchy::Child => String::from_str("child"),
        }
    }
}

impl DeepView for Hierarchy {
    type V = Hierarchy;

    open spec fn deep_view(&self) -> Hierarchy {
        *self
    }
}

/// The previous or the next sibling.
#[derive(Debug, Clone, PartialEq, Eq)]
pub enum Relative {
    Prev,
    Next,
}

impl Relative {
    /// The canonical spelling.
    pub open spec fn text(self) -> Seq<char> {
        match self {
            Relative::Prev => "prev"@,
            Relative::Next => "next"@,
        }
    }

    /// Renders the canonical spelling.
    pub fn to_string(&self) -> (r: String)
        ensures
            r@ == self.text(),
    {
        match self {
            Relative::Prev => String::from_str("prev"),
            Relative::Next => String::from_str("next"),
        }
    }
}

impl DeepView for Relative {
    type V = Relative;

    open spec fn deep_view(&self) -> Relative {
        *self
    }
}

/// A workspace relative to the current one.
#[derive(Debug, Clone, PartialEq, Eq)]
pub enum RelativeWorkspace {
    Prev,
    Next,
    Current,
}

impl RelativeWorkspace {
    /// The canonical spelling.
    pub open spec fn text(self) -> Seq<char> {
        match self {
            RelativeWorkspace::Prev => "prev"@,
            RelativeWorkspace::Next => "next"@,
            RelativeWorkspace::Current => "current"@,
        }
    }

    /// Renders the canonical spelling.
    pub fn to_string(&self) -> (r: String)
        ensures
            r@ == self.text(),
    {
        match self {
            RelativeWorkspace::Prev => String::from_str("prev"),
            RelativeWorkspace::Next => String::from_str("next"),
            RelativeWorkspace::Current => String::from_str("current"),
        }
    }
}

impl DeepView for RelativeWorkspace {
    type V = RelativeWorkspace;

    open spec fn deep_view(&self) -> RelativeWorkspace {
        *self
    }
}

/// The four movement directions.
#[derive(Debug, Clone, PartialEq, Eq)]
pub enum Directional {
    Up,
    Down,
    Left,
    Right,
}

impl Directional {
    /// The canonical spelling.
    pub open spec fn text(self) -> Seq<char> {
        match self {
            Directional::Up => "up"@,
            Directional::Down => "down"@,
            Directional::Left => "left"@,
            Directional::Right => "right"@,
        }
    }

    /// Renders the canonical spelling.
    pub fn to_string(&self) -> (r: String)
        ensures
            r@ == self.text(),
    {
        match self {
            Directional::Up => String::from_str("up"),
            Directional::Down => String::from_str("down"),
            Directional::Left => String::from_str("left"),
            Directional::Right => String::from_str("right"),
        }
    }
}

impl DeepView for Directional {
    type V = Directional;

    open spec fn deep_view(&self) -> Directional {
        *self
    }
}

/// Positional units: pixels or points.
#[derive(Debug, Clone, PartialEq, Eq)]
pub enum Units {
    Px,
    Ppt,
}

impl Units {
    /// The canonical spelling.
    pub open spec fn text(self) -> Seq<char> {
        match self {
            Units::Px => "px"@,
            Units::Ppt => "ppt"@,
        }
    }

    /// Renders the canonical spelling.
    pub fn to_string(&self) -> (r: String)
        ensures
            r@ == self.text(),
    {
        match self {
            Units::Px => String::from_str("px"),
            Units::Ppt => String::from_str("ppt"),
        }
    }
}

impl Default for Units {
    /// Pixels, when no unit is named.
    fn default() -> (r: Self)
        ensures
            r == Units::Px,
    {
        Units::Px
    }
}

impl DeepView for Units {
    type V = Units;

    open spec fn deep_view(&self) -> Units {
        *self
    }
}

/// Border styles for windows.
#[derive(Debug, Clone, PartialEq, Eq)]
pub enum Border {
    NoBorder,
    Normal(u8),
    Pixel(u8),
    Csd,
    Toggle,
}

impl Border {
    /// The canonical text: the style name, with its width where one applies.
    pub open spec fn text(self) -> Seq<char> {
        match self {
            Border::NoBorder => "none"@,
            Border::Normal(n) => "normal "@ + dec_str(n as int),
            Border::Pixel(n) => "pixel "@ + dec_str(n as int),
            Border::Csd => "csd"@,
            Border::Toggle => "toggle"@,
        }
    }

    /// Renders the canonical text.
    pub fn to_string(&self) -> (r: String)
        ensures
            r@ == self.text(),
    {
        match self {
            Border::NoBorder => String::from_str("none"),
            Border::Normal(n) => {
                let mut acc = String::from_str("normal ");
                acc.append(u8_text(*n).as_str());
                acc
            },
            Border::Pixel(n) => {
                let mut acc = String::from_str("pixel ");
                acc.append(u8_text(*n).as_str());
                acc
            },
            Border::Csd => String::from_str("csd"),
            Border::Toggle => String::from_str("toggle"),
        }
    }
}

impl DeepView for Border {
    type V = Border;

    open spec fn deep_view(&self) -> Border {
        *self
    }
}

/// The border styles a configuration may set as default.
#[derive(Debug, Clone, PartialEq, Eq)]
pub enum DefaultBorder {
    NoBorder,
    Normal(u8),
    Pixel(u8),
}

impl DefaultBorder {
    /// The canonical text: the style name, with its width where one applies.
    pub open spec fn text(self) -> Seq<char> {
        match self {
            DefaultBorder::NoBorder => "none"@,
            DefaultBorder::Normal(n) => "normal "@ + dec_str(n as int),
            DefaultBorder::Pixel(n) => "pixel "@ + dec_str(n as int),
        }
    }

    /// Renders the canonical text.
    pub fn to_string(&self) -> (r: String)
        ensures
            r@ == self.text(),
    {
        match self {
            DefaultBorder::NoBorder => String::from_str("none"),
            DefaultBorder::Normal(n) => {
                let mut acc = String::from_str("normal ");
                acc.append(u8_text(*n).as_str());
                acc
            },
            DefaultBorder::Pixel(n) => {
                let mut acc = String::from_str("pixel ");
                acc.append(u8_text(*n).as_str());
                acc
            },
        }
    }
}

impl DeepView for DefaultBorder {
    type V = DefaultBorder;

    open spec fn deep_view(&self) -> DefaultBorder {
        *self
    }
}

/// The orientation new workspaces start with.
#[derive(Debug, Clone, PartialEq, Eq)]
pub enum DefaultOrientation {
    Horizontal,
    Vertical,
    Auto,
}

impl DefaultOrientation {
    /// The canonical spelling.
    pub open spec fn text(self) -> Seq<char> {
        match self {
            DefaultOrientation::Horizontal => "horizontal"@,
            DefaultOrientation::Vertical => "vertical"@,
            DefaultOrientation::Auto => "auto"@,
        }
    }

    /// Renders the canonical spelling.
    pub fn to_string(&self) -> (r: String)
        ensures
            r@ == self.text(),
    {
        match self {
            DefaultOrientation::Horizontal => String::from_str("horizontal"),
            DefaultOrientation::Vertical => String::from_str("vertical"),
            DefaultOrientation::Auto => String::from_str("auto"),
        }
    }
}

impl DeepView for DefaultOrientation {
    type V = DefaultOrientation;

    open spec fn deep_view(&self) -> DefaultOrientation {
        *self
    }
}

/// What to swap the focused container with.
#[derive(Debug, Clone, PartialEq, Eq)]
pub enum Swap {
    Id(String),
    ConId(String),
    Mark(String),
}

/// The spec-level shape of a `Swap`.
pub enum SwapV {
    Id(Seq<char>),
    ConId(Seq<char>),
    Mark(Seq<char>),
}

impl SwapV {
    /// The canonical text: the selector kind, then its value.
    pub open spec fn text(self) -> Seq<char> {
        match self {
            SwapV::Id(s) => "id "@ + s,
            SwapV::ConId(s) => "con_id "@ + s,
            SwapV::Mark(s) => "mark "@ + s,
        }
    }
}

impl DeepView for Swap {
    type V = SwapV;

    open spec fn deep_view(&self) -> SwapV {
        match self {
            Swap::Id(s) => SwapV::Id(s@),
            Swap::ConId(s) => SwapV::ConId(s@),
            Swap::Mark(s) => SwapV::Mark(s@),
        }
    }
}

impl Swap {
    /// Renders the canonical text.
    pub fn to_string(&self) -> (r: String)
        ensures
            r@ == self.deep_view().text(),
    {
        match self {
            Swap::Id(s) => {
                let mut acc = String::from_str("id ");
                acc.append(s.as_str());
                acc
            },
            Swap::ConId(s) => {
                let mut acc = String::from_str("con_id ");
                acc.append(s.as_str());
                acc
            },
            Swap::Mark(s) => {
                let mut acc = String::from_str("mark ");
                acc.append(s.as_str());
                acc
            },
        }
    }
}

/// A maximum render time: off, or a bound in milliseconds.
#[derive(Debug, Clone, PartialEq, Eq)]
pub enum MaxRenderTimeOpts {
    Off,
    Ms(u8),
}

impl MaxRenderTimeOpts {
    /// The canonical text.
    pub open spec fn text(self) -> Seq<char> {
        match self {
            MaxRenderTimeOpts::Off => "off"@,
            MaxRenderTimeOpts::Ms(n) => dec_str(n as int),
        }
    }

    /// Renders the canonical text.
    pub fn to_string(&self) -> (r: String)
        ensures
            r@ == self.text(),
    {
        match self {
            MaxRenderTimeOpts::Off => String::from_str("off"),
            MaxRenderTimeOpts::Ms(n) => u8_text(*n),
        }
    }
}

impl DeepView for MaxRenderTimeOpts {
    type V = MaxRenderTimeOpts;

    open spec fn deep_view(&self) -> MaxRenderTimeOpts {
        *self
    }
}

/// A workspace rename: of the current workspace, or of a named one.
#[derive(Debug, Clone, PartialEq, Eq)]
pub enum RenameOpts {
    Current(String),
    Existing { old_name: String, new_name: String },
}

/// The spec-level shape of a `RenameOpts`.
pub enum RenameOptsV {
    Current(Seq<char>),
    Existing { old_name: Seq<char>, new_name: Seq<char> },
}

impl RenameOptsV {
    /// The canonical text.
    pub open spec fn text(self) -> Seq<char> {
        match self {
            RenameOptsV::Current(s) => "to "@ + s,
            RenameOptsV::Existing { old_name, new_name } => old_name + " to "@ + new_name,
        }
    }
}

impl DeepView for RenameOpts {
    type V = RenameOptsV;

    open spec fn deep_view(&self) -> RenameOptsV {
        match self {
            RenameOpts::Current(s) => RenameOptsV::Current(s@),
            RenameOpts::Existing { old_name, new_name } => RenameOptsV::Existing {
                old_name: old_name@,
                new_name: new_name@,
            },
        }
    }
}

impl RenameOpts {
    /// Renders the canonical text.
    pub fn to_string(&self) -> (r: String)
        ensures
            r@ == self.deep_view().text(),
    {
        match self {
            RenameOpts::Current(s) => {
                let mut acc = String::from_str("to ");
                acc.append(s.as_str());
                acc
            },
            RenameOpts::Existing { old_name, new_name } => {
                let mut acc = String::new();
                acc.append(old_name.as_str());
                acc.append(" to ");
                acc.append(new_name.as_str());
                acc
            },
        }
    }
}

/// Grow or shrink, for resizing.
#[derive(Debug, Clone, PartialEq, Eq)]
pub enum Size {
    Grow,
    Shrink,
}

impl Size {
    /// The canonical spelling.
    pub open spec fn text(self) -> Seq<char> {
        match self {
            Size::Grow => "grow"@,
            Size::Shrink => "shrink"@,
        }
    }

    /// Renders the canonical spelling.
    pub fn to_string(&self) -> (r: String)
        ensures
            r@ == self.text(),
    {
        match self {
            Size::Grow => String::from_str("grow"),
            Size::Shrink => String::from_str("shrink"),
        }
    }
}

impl DeepView for Size {
    type V = Size;

    open spec fn deep_view(&self) -> Size {
        *self
    }
}

/// The previous or the next sibling, for focus commands.
#[derive(Debug, Clone, PartialEq, Eq)]
pub enum FocusSibling {
    Prev,
    Next,
}

impl FocusSibling {
    /// The canonical spelling.
    pub open spec fn text(self) -> Seq<char> {
        match self {
            FocusSibling::Prev => "prev"@,
            FocusSibling::Next => "next"@,
        }
    }

    /// Renders the canonical spelling.
    pub fn to_string(&self) -> (r: String)
        ensures
            r@ == self.text(),
    {
        match self {
            FocusSibling::Prev => String::from_str("prev"),
            FocusSibling::Next => String::from_str("next"),
        }
    }
}

impl DeepView for FocusSibling {
    type V = FocusSibling;

    open spec fn deep_view(&self) -> FocusSibling {
        *self
    }
}

/// A workspace relative to the current one, for move commands.
#[derive(Debug, Clone, PartialEq, Eq)]
pub enum RelWorkspace {
    Prev,
    Next,
    Current,
}

impl RelWorkspace {
    /// The canonical spelling.
    pub open spec fn text(self) -> Seq<char> {
        match self {
            RelWorkspace::Prev => "prev"@,
            RelWorkspace::Next => "next"@,
            RelWorkspace::Current => "current"@,
        }
    }

    /// Renders the canonical spelling.
    pub fn to_string(&self) -> (r: String)
        ensures
            r@ == self.text(),
    {
        match self {
            RelWorkspace::Prev => String::from_str("prev"),
            RelWorkspace::Next => String::from_str("next"),
            RelWorkspace::Current => String::from_str("current"),
        }
    }
}

impl DeepView for RelWorkspace {
    type V = RelWorkspace;

    open spec fn deep_view(&self) -> RelWorkspace {
        *self
    }
}

/// Flags of the `bindsym` command, each rendered as a long option.
#[derive(Debug, Clone, PartialEq, Eq)]
pub enum Bindsym {
    WholeWindow,
    Border,
    ExcludeTitlebar,
    Release,
    Locked,
    ToCode,
    InputDevice(String),
    NoWarn,
    NoRepeat,
    Inhibited,
}

/// The spec-level shape of a `Bindsym` flag.
pub enum BindsymV {
    WholeWindow,
    Border,
    ExcludeTitlebar,
    Release,
    Locked,
    ToCode,
    InputDevice(Seq<char>),
    NoWarn,
    NoRepeat,
    Inhibited,
}

impl BindsymV {
    /// The canonical long-option text of the flag.
    pub open spec fn text(self) -> Seq<char> {
        match self {
            BindsymV::WholeWindow => "--whole-window"@,
            BindsymV::Border => "--border"@,
            BindsymV::ExcludeTitlebar => "--exclude-titlebar"@,
            BindsymV::Release => "--release"@,
            BindsymV::Locked => "--locked"@,
            BindsymV::ToCode => "--to-code"@,
            BindsymV::InputDevice(d) => "--input-device="@ + d,
            BindsymV::NoWarn => "--no-warn"@,
            BindsymV::NoRepeat => "--no-repeat"@,
            BindsymV::Inhibited => "--inhibited"@,
        }
    }
}

impl DeepView for Bindsym {
    type V = BindsymV;

    open spec fn deep_view(&self) -> BindsymV {
        match self {
            Bindsym::WholeWindow => BindsymV::WholeWindow,
            Bindsym::Border => BindsymV::Border,
            Bindsym::ExcludeTitlebar => BindsymV::ExcludeTitlebar,
            Bindsym::Release => BindsymV::Release,
            Bindsym::Locked => BindsymV::Locked,
            Bindsym::ToCode => BindsymV::ToCode,
            Bindsym::InputDevice(d) => BindsymV::InputDevice(d@),
            Bindsym::NoWarn => BindsymV::NoWarn,
            Bindsym::NoRepeat => BindsymV::NoRepeat,
            Bindsym::Inhibited => BindsymV::Inhibited,
        }
    }
}

impl Bindsym {
    /// Renders the canonical long-option text.
    pub fn to_string(&self) -> (r: String)
        ensures
            r@ == self.deep_view().text(),
    {
        match self {
            Bindsym::WholeWindow => String::from_str("--whole-window"),
            Bindsym::Border => String::from_str("--border"),
            Bindsym::ExcludeTitlebar => String::from_str("--exclude-titlebar"),
            Bindsym::Release => String::from_str("--release"),
            Bindsym::Locked => String::from_str("--locked"),
            Bindsym::ToCode => String::from_str("--to-code"),
            Bindsym::InputDevice(d) => {
                let mut acc = String::from_str("--input-device=");
                acc.append(d.as_str());
                acc
            },
            Bindsym::NoWarn => String::from_str("--no-warn"),
            Bindsym::NoRepeat => String::from_str("--no-repeat"),
            Bindsym::Inhibited => String::from_str("--inhibited"),
        }
    }
}

/// A key combination, rendered joined with `+`.
#[derive(Debug, Clone, PartialEq, Eq)]
pub struct BindKeys(pub Vec<String>);

impl DeepView for BindKeys {
    type V = Seq<Seq<char>>;

    open spec fn deep_view(&self) -> Seq<Seq<char>> {
        self.0.deep_view()
    }
}

impl BindKeys {
    /// An empty key combination.
    pub fn new() -> (r: Self)
        ensures
            r.deep_view() == Seq::<Seq<char>>::empty(),
    {
        let r = BindKeys(Vec::new());
        proof {
            assert(r.deep_view() =~= Seq::<Seq<char>>::empty());
        }
        r
    }

    /// The given keys as a combination.
    pub fn from(vec: Vec<String>) -> (r: Self)
        ensures
            r.deep_view() == vec.deep_view(),
    {
        BindKeys(vec)
    }

    /// Renders the keys joined with `+`.
    pub fn to_string(&self) -> (r: String)
        ensures
            r@ == join_with(self.deep_view(), "+"@),
    {
        crate::text::join_strings(&self.0, "+")
    }
}

impl Default for BindKeys {
    /// An empty key combination.
    fn default() -> (r: Self)
        ensures
            r.deep_view() == Seq::<Seq<char>>::empty(),
    {
        BindKeys::new()
    }
}

/// A list of `bindsym` flags, rendered each followed by one space.
#[derive(Debug, Clone, PartialEq, Eq)]
pub struct BindArgs(pub Vec<Bindsym>);

/// The text of a flag list: each flag's text with a single trailing space;
/// an empty list renders as the empty string.
pub open spec fn bindsym_args_text(args: Seq<BindsymV>) -> Seq<char>
    decreases args.len(),
{
    if args.len() == 0 {
        Seq::empty()
    } else {
        args[0].text() + " "@ + bindsym_args_text(args.drop_first())
    }
}

impl DeepView for BindArgs {
    type V = Seq<BindsymV>;

    open spec fn deep_view(&self) -> Seq<BindsymV> {
        self.0.deep_view()
    }
}

impl BindArgs {
    /// An empty flag list.
    pub fn new() -> (r: Self)
        ensures
            r.deep_view() == Seq::<BindsymV>::empty(),
    {
        let r = BindArgs(Vec::new());
        proof {
            assert(r.deep_view() =~= Seq::<BindsymV>::empty());
        }
        r
    }

    /// The given flags as a list.
    pub fn from(vec: Vec<Bindsym>) -> (r: Self)
        ensures
            r.deep_view() == vec.deep_view(),
    {
        BindArgs(vec)
    }

    /// Renders each flag followed by one space.
    pub fn to_string(&self) -> (r: String)
        ensures
            r@ == bindsym_args_text(self.deep_view()),
    {
        bindsym_flags_string(&self.0)
    }
}

impl Default for BindArgs {
    /// An empty flag list.
    fn default() -> (r: Self)
        ensures
            r.deep_view() == Seq::<BindsymV>::empty(),
    {
        BindArgs::new()
    }
}

proof fn lemma_bindsym_args_text_snoc(args: Seq<BindsymV>, i: int)
    requires
        0 <= i < args.len(),
    ensures
        bindsym_args_text(args.take(i + 1)) == bindsym_args_text(args.take(i)) + args[i].text()
            + " "@,
    decreases i,
{
    let a = args.take(i + 1);
    let b = args.take(i);
    if i == 0 {
        assert(a.drop_first() =~= Seq::<BindsymV>::empty());
        assert(b =~= Seq::<BindsymV>::empty());
        assert(bindsym_args_text(a) =~= bindsym_args_text(b) + args[0].text() + " "@);
    } else {
        lemma_bindsym_args_text_snoc(args.drop_first(), i - 1);
        assert(a.drop_first() =~= args.drop_first().take(i));
        assert(b.drop_first() =~= args.drop_first().take(i - 1));
        assert(args.drop_first()[i - 1] == args[i]);
        assert(bindsym_args_text(a) =~= bindsym_args_text(b) + args[i].text() + " "@);
    }
}

/// Renders a list of `bindsym` flags, each followed by one space.
pub fn bindsym_flags_string(flags: &Vec<Bindsym>) -> (r: String)
    ensures
        r@ == bindsym_args_text(flags.deep_view()),
{
    let mut acc = String::new();
    let mut i: usize = 0;
    proof {
        assert(flags.deep_view().take(0) =~= Seq::<BindsymV>::empty());
    }
    while i < flags.len()
        invariant
            0 <= i <= flags.len(),
            flags.deep_view().len() == flags.len(),
            acc@ == bindsym_args_text(flags.deep_view().take(i as int)),
        decreases flags.len() - i,
    {
        let t = flags[i].to_string();
        acc.append(t.as_str());
        acc.append(" ");
        proof {
            lemma_bindsym_args_text_snoc(flags.deep_view(), i as int);
        }
        i = i + 1;
    }
    proof {
        assert(flags.deep_view().take(flags.len() as int) =~= flags.deep_view());
    }
    acc
}

/// An argument token with a single canonical text form.
pub trait Arg: Sized {
    /// The canonical text of the token.
    spec fn text_v(&self) -> Seq<char>;

    /// Renders the canonical text.
    fn arg_text(&self) -> (r: String)
        ensures
            r@ == self.text_v(),
    ;

    /// Whether two tokens have the same canonical text.
    fn same(&self, other: &Self) -> (r: bool)
        ensures
            r == (self.text_v() == other.text_v()),
    {
        let a = self.arg_text();
        let b = other.arg_text();
        crate::text::str_eq(a.as_str(), b.as_str())
    }
}

/// The text of an argument list: each token followed by one space; an empty
/// list renders as the empty string.
pub open spec fn arg_list_text<T: Arg>(items: Seq<T>) -> Seq<char>
    decreases items.len(),
{
    if items.len() == 0 {
        Seq::empty()
    } else {
        items[0].text_v() + " "@ + arg_list_text(items.drop_first())
    }
}

/// The text of a flag map: each token whose value is set, followed by one
/// space; unset tokens leave no text at all.
pub open spec fn arg_map_text<T: Arg>(entries: Seq<(T, bool)>) -> Seq<char>
    decreases entries.len(),
{
    if entries.len() == 0 {
        Seq::empty()
    } else {
        (if entries[0].1 {
            entries[0].0.text_v() + " "@
        } else {
            Seq::empty()
        }) + arg_map_text(entries.drop_first())
    }
}

/// An ordered list of argument tokens, rendered each followed by one space.
#[derive(Debug, Clone, PartialEq, Eq)]
pub struct ArgList<T>(pub Vec<T>);

impl<T: Arg> ArgList<T> {
    /// An empty list.
    pub fn new() -> (r: Self)
        ensures
            r.0@ == Seq::<T>::empty(),
    {
        let r = ArgList(Vec::new());
        proof {
            assert(r.0@ =~= Seq::<T>::empty());
        }
        r
    }

    /// The given tokens as a list.
    pub fn from(vec: Vec<T>) -> (r: Self)
        ensures
            r.0@ == vec@,
    {
        ArgList(vec)
    }

    /// Renders each token followed by one space.
    pub fn to_string(&self) -> (r: String)
        ensures
            r@ == arg_list_text(self.0@),
    {
        let mut acc = String::new();
        let mut i: usize = 0;
        proof {
            assert(self.0@.take(0) =~= Seq::<T>::empty());
        }
        while i < self.0.len()
            invariant
                0 <= i <= self.0.len(),
                acc@ == arg_list_text(self.0@.take(i as int)),
            decreases self.0.len() - i,
        {
            let t = self.0[i].arg_text();
            acc.append(t.as_str());
            acc.append(" ");
            proof {
                lemma_arg_list_text_snoc(self.0@, i as int);
            }
            i = i + 1;
        }
        proof {
            assert(self.0@.take(self.0.len() as int) =~= self.0@);
        }
        acc
    }
}

impl<T: Arg> Default for ArgList<T> {
    /// An empty list.
    fn default() -> (r: Self)
        ensures
            r.0@ == Seq::<T>::empty(),
    {
        ArgList::new()
    }
}

proof fn lemma_arg_list_text_snoc<T: Arg>(items: Seq<T>, i: int)
    requires
        0 <= i < items.len(),
    ensures
        arg_list_text(items.take(i + 1)) == arg_list_text(items.take(i)) + items[i].text_v()
            + " "@,
    decreases i,
{
    let a = items.take(i + 1);
    let b = items.take(i);
    if i == 0 {
        assert(a.drop_first() =~= Seq::<T>::empty());
        assert(b =~= Seq::<T>::empty());
        assert(arg_list_text(a) =~= arg_list_text(b) + items[0].text_v() + " "@);
    } else {
        lemma_arg_list_text_snoc(items.drop_first(), i - 1);
        assert(a.drop_first() =~= items.drop_first().take(i));
        assert(b.drop_first() =~= items.drop_first().take(i - 1));
        assert(items.drop_first()[i - 1] == items[i]);
        assert(arg_list_text(a) =~= arg_list_text(b) + items[i].text_v() + " "@);
    }
}

proof fn lemma_arg_map_text_snoc<T: Arg>(entries: Seq<(T, bool)>, i: int)
    requires
        0 <= i < entries.len(),
    ensures
        arg_map_text(entries.take(i + 1)) == arg_map_text(entries.take(i)) + (if entries[i].1 {
            entries[i].0.text_v() + " "@
        } else {
            Seq::<char>::empty()
        }),
    decreases i,
{
    let a = entries.take(i + 1);
    let b = entries.take(i);
    if i == 0 {
        assert(a.drop_first() =~= Seq::<(T, bool)>::empty());
        assert(b =~= Seq::<(T, bool)>::empty());
        assert(a[0] == entries[0]);
        assert(arg_map_text(a) =~= arg_map_text(b) + (if entries[0].1 {
            entries[0].0.text_v() + " "@
        } else {
            Seq::<char>::empty()
        }));
    } else {
        lemma_arg_map_text_snoc(entries.drop_first(), i - 1);
        assert(a.drop_first() =~= entries.drop_first().take(i));
        assert(b.drop_first() =~= entries.drop_first().take(i - 1));
        assert(entries.drop_first()[i - 1] == entries[i]);
        assert(arg_map_text(a) =~= arg_map_text(b) + (if entries[i].1 {
            entries[i].0.text_v() + " "@
        } else {
            Seq::<char>::empty()
        }));
    }
}

/// What inserting into a flag map yields: the updated entry list, and the
/// value the key had before, if it was present. The first entry with the
/// key's text is updated in place; a fresh key goes to the end.
pub open spec fn arg_map_insert<T: Arg>(entries: Seq<(T, bool)>, key: T, value: bool) -> (
    Seq<(T, bool)>,
    Option<bool>,
)
    decreases entries.len(),
{
    if entries.len() == 0 {
        (seq![(key, value)], None::<bool>)
    } else if entries[0].0.text_v() == key.text_v() {
        (seq![(entries[0].0, value)] + entries.drop_first(), Some(entries[0].1))
    } else {
        let (rest, old_val) = arg_map_insert(entries.drop_first(), key, value);
        (seq![entries[0]] + rest, old_val)
    }
}

/// A map from argument tokens to on/off values, rendered as the list of the
/// tokens that are on, each followed by one space.
#[derive(Debug, Clone, PartialEq, Eq)]
pub struct ArgMap<T>(pub Vec<(T, bool)>);

impl<T: Arg> ArgMap<T> {
    /// An empty map.
    pub fn new() -> (r: Self)
        ensures
            r.0@ == Seq::<(T, bool)>::empty(),
    {
        let r = ArgMap(Vec::new());
        proof {
            assert(r.0@ =~= Seq::<(T, bool)>::empty());
        }
        r
    }

    /// The given entries as a map.
    pub fn from(vec: Vec<(T, bool)>) -> (r: Self)
        ensures
            r.0@ == vec@,
    {
        ArgMap(vec)
    }

    /// Sets `key` to `value`; yields the value the key had before, if any.
    pub fn insert(&mut self, key: T, value: bool) -> (r: Option<bool>)
        ensures
            (final(self).0@, r) == arg_map_insert(old(self).0@, key, value),
    {
        let ghost entries = self.0@;
        let mut i: usize = 0;
        while i < self.0.len()
            invariant
                0 <= i <= self.0@.len(),
                self.0@ == entries,
                entries == old(self).0@,
                forall|j: int|
                    0 <= j < i ==> (#[trigger] entries[j]).0.text_v() != key.text_v(),
            decreases self.0@.len() - i,
        {
            if self.0[i].0.same(&key) {
                let old_val = self.0[i].1;
                let pair = self.0.remove(i);
                self.0.insert(i, (pair.0, value));
                proof {
                    lemma_arg_map_insert_found(entries, key, value, i as int);
                    assert(self.0@ =~= entries.update(i as int, (entries[i as int].0, value)));
                }
                return Some(old_val);
            }
            i = i + 1;
        }
        self.0.push((key, value));
        proof {
            lemma_arg_map_insert_missing(entries, key, value);
            assert(self.0@ =~= entries.push((key, value)));
        }
        None
    }

    /// Renders each token that is on, followed by one space.
    pub fn to_string(&self) -> (r: String)
        ensures
            r@ == arg_map_text(self.0@),
    {
        let mut acc = String::new();
        let mut i: usize = 0;
        proof {
            assert(self.0@.take(0) =~= Seq::<(T, bool)>::empty());
        }
        while i < self.0.len()
            invariant
                0 <= i <= self.0.len(),
                acc@ == arg_map_text(self.0@.take(i as int)),
            decreases self.0.len() - i,
        {
            if self.0[i].1 {
                let t = self.0[i].0.arg_text();
                acc.append(t.as_str());
                acc.append(" ");
            }
            proof {
                lemma_arg_map_text_snoc(self.0@, i as int);
            }
            i = i + 1;
        }
        proof {
            assert(self.0@.take(self.0.len() as int) =~= self.0@);
        }
        acc
    }
}

impl<T: Arg> Default for ArgMap<T> {
    /// An empty map.
    fn default() -> (r: Self)
        ensures
            r.0@ == Seq::<(T, bool)>::empty(),
    {
        ArgMap::new()
    }
}

proof fn lemma_arg_map_insert_found<T: Arg>(entries: Seq<(T, bool)>, key: T, value: bool, i: int)
    requires
        0 <= i < entries.len(),
        forall|j: int| 0 <= j < i ==> (#[trigger] entries[j]).0.text_v() != key.text_v(),
        entries[i].0.text_v() == key.text_v(),
    ensures
        arg_map_insert(entries, key, value) == (
            entries.update(i, (entries[i].0, value)),
            Some(entries[i].1),
        ),
    decreases i,
{
    if i == 0 {
        assert(seq![(entries[0].0, value)] + entries.drop_first() =~= entries.update(
            0,
            (entries[0].0, value),
        ));
    } else {
        lemma_arg_map_insert_found(entries.drop_first(), key, value, i - 1);
        assert(entries.drop_first()[i - 1] == entries[i]);
        assert(seq![entries[0]] + entries.drop_first().update(i - 1, (entries[i].0, value))
            =~= entries.update(i, (entries[i].0, value)));
    }
}

proof fn lemma_arg_map_insert_missing<T: Arg>(entries: Seq<(T, bool)>, key: T, value: bool)
    requires
        forall|j: int|
            0 <= j < entries.len() ==> (#[trigger] entries[j]).0.text_v() != key.text_v(),
    ensures
        arg_map_insert(entries, key, value) == (entries.push((key, value)), None::<bool>),
    decreases entries.len(),
{
    if entries.len() == 0 {
        assert(seq![(key, value)] =~= entries.push((key, value)));
    } else {
        lemma_arg_map_insert_missing(entries.drop_first(), key, value);
        assert(seq![entries[0]] + entries.drop_first().push((key, value)) =~= entries.push(
            (key, value),
        ));
    }
}

} // verus!
