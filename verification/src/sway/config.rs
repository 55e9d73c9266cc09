//! The layered configuration-file structure: variables, startup commands,
//! defaults, modes, key bindings and the bar, each rendered as its own
//! commented section. Sections that hold nothing render as nothing.
use crate::sway::bind::Bind;
use crate::sway::exec::ExecParams;
use crate::sway::layout::ConfigLayout;
use crate::sway::options::{arg_map_text, ArgMap, DefaultBorder, DefaultOrientation};
use crate::sway::runtime::{runtime_text, Runtime};
use crate::text::{join_with, lines_of, split_lines};
use vstd::prelude::*;

verus! {

/// A run of `n` spaces.
pub open spec fn spaces(n: int) -> Seq<char>
    decreases n,
{
    if n <= 0 {
        Seq::empty()
    } else {
        spaces(n - 1).push(' ')
    }
}

/// Each line of `content` indented by `level` spaces.
pub open spec fn indent_text(content: Seq<char>, level: int) -> Seq<char> {
    join_with(lines_of(content).map_values(|l: Seq<char>| spaces(level) + l), "\n"@)
}

/// Indents every line of `content` by `level` spaces.
pub fn indent(content: &str, level: u8) -> (r: String)
    ensures
        r@ == indent_text(content@, level as int),
{
    let mut ind = String::new();
    let mut i: u8 = 0;
    while i < level
        invariant
            0 <= i <= level,
            ind@ == spaces(i as int),
        decreases level - i,
    {
        ind.append(" ");
        proof {
            reveal_strlit(" ");
            assert(ind@ =~= spaces(i + 1));
        }
        i = i + 1;
    }
    let lines = split_lines(content);
    let mut texts: Vec<String> = Vec::new();
    let mut j: usize = 0;
    proof {
        assert(texts.deep_view() =~= lines.deep_view().take(0).map_values(
            |l: Seq<char>| spaces(level as int) + l,
        ));
    }
    while j < lines.len()
        invariant
            0 <= j <= lines.len(),
            lines.deep_view().len() == lines.len(),
            ind@ == spaces(level as int),
            texts.deep_view() == lines.deep_view().take(j as int).map_values(
                |l: Seq<char>| spaces(level as int) + l,
            ),
        decreases lines.len() - j,
    {
        let ghost old_dv = texts.deep_view();
        let mut line = String::from_str(ind.as_str());
        line.append(lines[j].as_str());
        texts.push(line);
        proof {
            assert(texts.deep_view() =~= old_dv.push(
                spaces(level as int) + lines.deep_view()[j as int],
            ));
            assert(texts.deep_view() =~= lines.deep_view().take(j + 1).map_values(
                |l: Seq<char>| spaces(level as int) + l,
            ));
        }
        j = j + 1;
    }
    proof {
        assert(lines.deep_view().take(lines.len() as int) =~= lines.deep_view());
    }
    crate::text::join_strings(&texts, "\n")
}

/// A section under its comment header: each header line as a `#` comment,
/// the section, and one closing blank line.
pub open spec fn commented(section: Seq<char>, header: Seq<char>) -> Seq<char> {
    join_with(lines_of(header).map_values(|l: Seq<char>| "# "@ + l), "\n"@) + "\n"@ + section
        + "\n\n"@
}

/// Puts a comment header above a section: one `#` line per header line,
/// then the section, then one blank line.
pub fn with_comment_header(section: String, header: String) -> (r: String)
    ensures
        r@ == commented(section@, header@),
{
    let lines = split_lines(header.as_str());
    let mut texts: Vec<String> = Vec::new();
    let mut j: usize = 0;
    proof {
        assert(texts.deep_view() =~= lines.deep_view().take(0).map_values(
            |l: Seq<char>| "# "@ + l,
        ));
    }
    while j < lines.len()
        invariant
            0 <= j <= lines.len(),
            lines.deep_view().len() == lines.len(),
            texts.deep_view() == lines.deep_view().take(j as int).map_values(
                |l: Seq<char>| "# "@ + l,
            ),
        decreases lines.len() - j,
    {
        let ghost old_dv = texts.deep_view();
        let mut line = String::from_str("# ");
        line.append(lines[j].as_str());
        texts.push(line);
        proof {
            assert(texts.deep_view() =~= old_dv.push("# "@ + lines.deep_view()[j as int]));
            assert(texts.deep_view() =~= lines.deep_view().take(j + 1).map_values(
                |l: Seq<char>| "# "@ + l,
            ));
        }
        j = j + 1;
    }
    proof {
        assert(lines.deep_view().take(lines.len() as int) =~= lines.deep_view());
    }
    let mut acc = crate::text::join_strings(&texts, "\n");
    acc.append("\n");
    acc.append(section.as_str());
    acc.append("\n\n");
    acc
}

/// A key binding without its keys: the flags and the bound command. The key
/// combination comes from the binding map it sits in.
#[derive(Debug, PartialEq, Eq)]
pub struct KeylessBindsym {
    pub flags: ArgMap<Bind>,
    pub command: Runtime,
}

impl KeylessBindsym {
    /// A binding from its flags and command.
    pub fn new(flags: ArgMap<Bind>, command: Runtime) -> (r: Self)
        ensures
            r.flags == flags,
            r.command == command,
    {
        KeylessBindsym { flags, command }
    }
}

/// A bar block: an optional identifier and its status command.
#[derive(Debug, Clone, PartialEq, Eq)]
pub struct Bar {
    pub id: String,
    pub status_command: String,
}

/// The text of a bar block: the identifier after `bar` when one is present.
pub open spec fn bar_text(b: Bar) -> Seq<char> {
    if b.id@.len() == 0 {
        "bar {\n    status_command "@ + b.status_command@ + "\n}"@
    } else {
        "bar "@ + b.id@ + " {\n    status_command "@ + b.status_command@ + "\n}"@
    }
}

impl Bar {
    /// A bar block from its identifier and status command.
    pub fn new(id: String, status_command: String) -> (r: Self)
        ensures
            r.id@ == id@,
            r.status_command@ == status_command@,
    {
        Bar { id, status_command }
    }

    /// Renders the bar block.
    pub fn to_string(&self) -> (r: String)
        ensures
            r@ == bar_text(*self),
    {
        if self.id.as_str().unicode_len() == 0 {
            let mut acc = String::from_str("bar {\n    status_command ");
            acc.append(self.status_command.as_str());
            acc.append("\n}");
            proof {
                assert(self.id@.len() == 0);
            }
            acc
        } else {
            let mut acc = String::from_str("bar ");
            acc.append(self.id.as_str());
            acc.append(" {\n    status_command ");
            acc.append(self.status_command.as_str());
            acc.append("\n}");
            acc
        }
    }
}

/// Default workspace layout, orientation and borders.
#[derive(Debug, Clone, PartialEq, Eq)]
pub struct Defaults {
    pub orientation: Option<DefaultOrientation>,
    pub layout: Option<ConfigLayout>,
    pub border: Option<DefaultBorder>,
    pub floating_border: Option<DefaultBorder>,
}

/// The text of the defaults block: one line per present field, each ended by
/// a newline, in the fixed order layout, orientation, border, floating
/// border.
pub open spec fn defaults_text(d: Defaults) -> Seq<char> {
    (match d.layout {
        Option::Some(w) => "workspace_layout "@ + w.text() + "\n"@,
        Option::None => Seq::<char>::empty(),
    }) + (match d.orientation {
        Option::Some(w) => "default_orientation "@ + w.text() + "\n"@,
        Option::None => Seq::<char>::empty(),
    }) + (match d.border {
        Option::Some(w) => "default_border "@ + w.text() + "\n"@,
        Option::None => Seq::<char>::empty(),
    }) + (match d.floating_border {
        Option::Some(w) => "default_floating_border "@ + w.text() + "\n"@,
        Option::None => Seq::<char>::empty(),
    })
}

impl Defaults {
    /// Renders the defaults block.
    #[verifier::rlimit(100)]
    #[verifier::spinoff_prover]
    pub fn to_string(&self) -> (r: String)
        ensures
            r@ == defaults_text(*self),
    {
        let mut acc = String::new();
        match &self.layout {
            Option::Some(w) => {
                acc.append("workspace_layout ");
                let t = w.to_string();
                acc.append(t.as_str());
                acc.append("\n");
            },
            Option::None => (),
        }
        match &self.orientation {
            Option::Some(w) => {
                acc.append("default_orientation ");
                let t = w.to_string();
                acc.append(t.as_str());
                acc.append("\n");
            },
            Option::None => (),
        }
        match &self.border {
            Option::Some(w) => {
                acc.append("default_border ");
                let t = w.to_string();
                acc.append(t.as_str());
                acc.append("\n");
            },
            Option::None => (),
        }
        match &self.floating_border {
            Option::Some(w) => {
                acc.append("default_floating_border ");
                let t = w.to_string();
                acc.append(t.as_str());
                acc.append("\n");
            },
            Option::None => (),
        }
        proof {
            assert(acc@ =~= defaults_text(*self));
        }
        acc
    }
}

/// The line of one key binding in a binding map: the kind keyword, the
/// flags, the key combination, and the bound command.
pub open spec fn keyless_line(kind: Seq<char>, key: Seq<char>, b: KeylessBindsym) -> Seq<char> {
    kind + " "@ + arg_map_text(b.flags.0@) + key + " "@ + runtime_text(b.command)
}

/// The text of a binding section: one line per entry under the header, or
/// nothing at all when the map is absent or empty.
pub open spec fn bind_map_text(
    binds: Option<Vec<(String, KeylessBindsym)>>,
    kind: Seq<char>,
    header: Seq<char>,
) -> Seq<char> {
    match binds {
        Option::None => Seq::empty(),
        Option::Some(bs) => {
            if bs@.len() == 0 {
                Seq::empty()
            } else {
                commented(
                    join_with(
                        bs@.map_values(
                            |kv: (String, KeylessBindsym)| keyless_line(kind, kv.0@, kv.1),
                        ),
                        "\n"@,
                    ),
                    header,
                )
            }
        },
    }
}

/// Renders the lines of a binding map, joined with newlines, then headed.
fn stringify_bind_map(
    binds: &Option<Vec<(String, KeylessBindsym)>>,
    kind: &str,
    header: &str,
) -> (r: String)
    ensures
        r@ == bind_map_text(*binds, kind@, header@),
{
    match binds {
        Option::Some(bs) => {
            if bs.len() == 0 {
                String::new()
            } else {
                let mut texts: Vec<String> = Vec::new();
                let mut i: usize = 0;
                proof {
                    assert(texts.deep_view() =~= bs@.take(0).map_values(
                        |kv: (String, KeylessBindsym)| keyless_line(kind@, kv.0@, kv.1),
                    ));
                }
                while i < bs.len()
                    invariant
                        0 <= i <= bs.len(),
                        texts.deep_view() == bs@.take(i as int).map_values(
                            |kv: (String, KeylessBindsym)| keyless_line(kind@, kv.0@, kv.1),
                        ),
                    decreases bs.len() - i,
                {
                    let ghost old_dv = texts.deep_view();
                    let mut line = String::from_str(kind);
                    line.append(" ");
                    let f = bs[i].1.flags.to_string();
                    line.append(f.as_str());
                    line.append(bs[i].0.as_str());
                    line.append(" ");
                    let c = bs[i].1.command.to_string();
                    line.append(c.as_str());
                    texts.push(line);
                    proof {
                        assert(texts.deep_view() =~= old_dv.push(
                            keyless_line(kind@, bs@[i as int].0@, bs@[i as int].1),
                        ));
                        assert(texts.deep_view() =~= bs@.take(i + 1).map_values(
                            |kv: (String, KeylessBindsym)| keyless_line(kind@, kv.0@, kv.1),
                        ));
                    }
                    i = i + 1;
                }
                proof {
                    assert(bs@.take(bs.len() as int) =~= bs@);
                }
                let joined = crate::text::join_strings(&texts, "\n");
                with_comment_header(joined, String::from_str(header))
            }
        },
        Option::None => String::new(),
    }
}

/// Renders the `bindsym` section of a configuration.
pub fn stringify_bindsyms(bindsym: &Option<Vec<(String, KeylessBindsym)>>) -> (r: String)
    ensures
        r@ == bind_map_text(
            *bindsym,
            "bindsym"@,
            "User-defined bindsym commands (using [bindsym] table)"@,
        ),
{
    stringify_bind_map(
        bindsym,
        "bindsym",
        "User-defined bindsym commands (using [bindsym] table)",
    )
}

/// Renders the `bindcode` section of a configuration.
pub fn stringify_bindcodes(bindcode: &Option<Vec<(String, KeylessBindsym)>>) -> (r: String)
    ensures
        r@ == bind_map_text(
            *bindcode,
            "bindcode"@,
            "User-defined bindcode commands (using [bindcode] table)"@,
        ),
{
    stringify_bind_map(
        bindcode,
        "bindcode",
        "User-defined bindcode commands (using [bindcode] table)",
    )
}

/// The line of one variable definition.
pub open spec fn set_line(kv: (String, String)) -> Seq<char> {
    "set $"@ + kv.0@ + " "@ + kv.1@
}

/// The text of the variables section.
pub open spec fn sets_text(sets: Option<Vec<(String, String)>>) -> Seq<char> {
    match sets {
        Option::None => Seq::empty(),
        Option::Some(s) => {
            if s@.len() == 0 {
                Seq::empty()
            } else {
                commented(
                    join_with(s@.map_values(|kv: (String, String)| set_line(kv)), "\n"@),
                    "Variables (using [set] table)"@,
                )
            }
        },
    }
}

/// Renders the variables section.
pub fn stringify_sets(sets: &Option<Vec<(String, String)>>) -> (r: String)
    ensures
        r@ == sets_text(*sets),
{
    match sets {
        Option::Some(s) => {
            if s.len() == 0 {
                String::new()
            } else {
                let mut texts: Vec<String> = Vec::new();
                let mut i: usize = 0;
                proof {
                    assert(texts.deep_view() =~= s@.take(0).map_values(
                        |kv: (String, String)| set_line(kv),
                    ));
                }
                while i < s.len()
                    invariant
                        0 <= i <= s.len(),
                        texts.deep_view() == s@.take(i as int).map_values(
                            |kv: (String, String)| set_line(kv),
                        ),
                    decreases s.len() - i,
                {
                    let ghost old_dv = texts.deep_view();
                    let mut line = String::from_str("set $");
                    line.append(s[i].0.as_str());
                    line.append(" ");
                    line.append(s[i].1.as_str());
                    texts.push(line);
                    proof {
                        assert(texts.deep_view() =~= old_dv.push(set_line(s@[i as int])));
                        assert(texts.deep_view() =~= s@.take(i + 1).map_values(
                            |kv: (String, String)| set_line(kv),
                        ));
                    }
                    i = i + 1;
                }
                proof {
                    assert(s@.take(s.len() as int) =~= s@);
                }
                let joined = crate::text::join_strings(&texts, "\n");
                with_comment_header(joined, String::from_str("Variables (using [set] table)"))
            }
        },
        Option::None => String::new(),
    }
}

/// The text of a startup command section, each entry under the given
/// keyword.
pub open spec fn exec_lines_text(
    entries: Option<Vec<ExecParams>>,
    kind: Seq<char>,
    header: Seq<char>,
) -> Seq<char> {
    match entries {
        Option::None => Seq::empty(),
        Option::Some(s) => {
            if s@.len() == 0 {
                Seq::empty()
            } else {
                commented(
                    join_with(s@.map_values(|e: ExecParams| kind + " "@ + e.text()), "\n"@),
                    header,
                )
            }
        },
    }
}

/// Renders a startup command section.
fn stringify_exec_lines(entries: &Option<Vec<ExecParams>>, kind: &str, header: &str) -> (r:
    String)
    ensures
        r@ == exec_lines_text(*entries, kind@, header@),
{
    match entries {
        Option::Some(s) => {
            if s.len() == 0 {
                String::new()
            } else {
                let mut texts: Vec<String> = Vec::new();
                let mut i: usize = 0;
                proof {
                    assert(texts.deep_view() =~= s@.take(0).map_values(
                        |e: ExecParams| kind@ + " "@ + e.text(),
                    ));
                }
                while i < s.len()
                    invariant
                        0 <= i <= s.len(),
                        texts.deep_view() == s@.take(i as int).map_values(
                            |e: ExecParams| kind@ + " "@ + e.text(),
                        ),
                    decreases s.len() - i,
                {
                    let ghost old_dv = texts.deep_view();
                    let mut line = String::from_str(kind);
                    line.append(" ");
                    let t = s[i].to_string();
                    line.append(t.as_str());
                    texts.push(line);
                    proof {
                        assert(texts.deep_view() =~= old_dv.push(
                            kind@ + " "@ + s@[i as int].text(),
                        ));
                        assert(texts.deep_view() =~= s@.take(i + 1).map_values(
                            |e: ExecParams| kind@ + " "@ + e.text(),
                        ));
                    }
                    i = i + 1;
                }
                proof {
                    assert(s@.take(s.len() as int) =~= s@);
                }
                let joined = crate::text::join_strings(&texts, "\n");
                with_comment_header(joined, String::from_str(header))
            }
        },
        Option::None => String::new(),
    }
}

/// Renders the `exec` section.
pub fn stringify_exec(exec: &Option<Vec<ExecParams>>) -> (r: String)
    ensures
        r@ == exec_lines_text(
            *exec,
            "exec"@,
            "Startup commands (using exec array)\nNote: these will only be run once; NOT when reload is called\nUse exec-always if you need this command run on reload"@,
        ),
{
    stringify_exec_lines(
        exec,
        "exec",
        "Startup commands (using exec array)\nNote: these will only be run once; NOT when reload is called\nUse exec-always if you need this command run on reload",
    )
}

/// Renders the `exec-always` section.
pub fn stringify_exec_always(exec_always: &Option<Vec<ExecParams>>) -> (r: String)
    ensures
        r@ == exec_lines_text(
            *exec_always,
            "exec-always"@,
            "Startup commands (using exec-always array)\nNote: these will be run every time that reload is called"@,
        ),
{
    stringify_exec_lines(
        exec_always,
        "exec-always",
        "Startup commands (using exec-always array)\nNote: these will be run every time that reload is called",
    )
}

/// The text of the defaults section.
pub open spec fn defaults_section_text(defaults: Option<Defaults>) -> Seq<char> {
    match defaults {
        Option::None => Seq::empty(),
        Option::Some(d) => {
            if defaults_text(d).len() == 0 {
                Seq::empty()
            } else {
                commented(
                    defaults_text(d),
                    "Default workspace layout and orientation (using [defaults] table)"@,
                )
            }
        },
    }
}

/// Renders the defaults section.
pub fn stringify_defaults(defaults: &Option<Defaults>) -> (r: String)
    ensures
        r@ == defaults_section_text(*defaults),
{
    match defaults {
        Option::Some(d) => {
            let res0 = d.to_string();
            if res0.as_str().unicode_len() == 0 {
                proof {
                    assert(defaults_text(*d).len() == 0);
                }
                String::new()
            } else {
                with_comment_header(
                    res0,
                    String::from_str(
                        "Default workspace layout and orientation (using [defaults] table)",
                    ),
                )
            }
        },
        Option::None => String::new(),
    }
}

/// Binding maps for one mode.
#[derive(Debug, PartialEq, Eq)]
pub struct ModeCfg {
    pub bindsym: Option<Vec<(String, KeylessBindsym)>>,
    pub bindcode: Option<Vec<(String, KeylessBindsym)>>,
}

/// The text of one mode's body: its binding sections.
pub open spec fn mode_cfg_text(mc: ModeCfg) -> Seq<char> {
    bind_map_text(
        mc.bindsym,
        "bindsym"@,
        "User-defined bindsym commands (using [bindsym] table)"@,
    ) + bind_map_text(
        mc.bindcode,
        "bindcode"@,
        "User-defined bindcode commands (using [bindcode] table)"@,
    )
}

impl ModeCfg {
    /// Renders the mode's binding sections.
    pub fn to_string(&self) -> (r: String)
        ensures
            r@ == mode_cfg_text(*self),
    {
        let mut acc = stringify_bindsyms(&self.bindsym);
        let codes = stringify_bindcodes(&self.bindcode);
        acc.append(codes.as_str());
        acc
    }
}

/// Named modes, each holding its own binding maps.
#[derive(Debug, PartialEq, Eq)]
pub struct Modes(pub Vec<(String, ModeCfg)>);

/// The text of one mode block: its header comment and its braced body,
/// indented by four spaces.
pub open spec fn mode_block_text(kv: (String, ModeCfg)) -> Seq<char> {
    "# Configuration for mode "@ + kv.0@ + "\nmode "@ + kv.0@ + " {\n"@ + indent_text(
        mode_cfg_text(kv.1),
        4,
    ) + "\n}\n"@
}

/// The text of all mode blocks, in order.
pub open spec fn modes_text(m: Modes) -> Seq<char>
    decreases m.0@.len(),
{
    modes_entries_text(m.0@)
}

/// The text of a list of mode blocks.
pub open spec fn modes_entries_text(entries: Seq<(String, ModeCfg)>) -> Seq<char>
    decreases entries.len(),
{
    if entries.len() == 0 {
        Seq::empty()
    } else {
        mode_block_text(entries[0]) + modes_entries_text(entries.drop_first())
    }
}

proof fn lemma_modes_entries_snoc(entries: Seq<(String, ModeCfg)>, i: int)
    requires
        0 <= i < entries.len(),
    ensures
        modes_entries_text(entries.take(i + 1)) == modes_entries_text(entries.take(i))
            + mode_block_text(entries[i]),
    decreases i,
{
    let a = entries.take(i + 1);
    let b = entries.take(i);
    if i == 0 {
        assert(a.drop_first() =~= Seq::<(String, ModeCfg)>::empty());
        assert(b =~= Seq::<(String, ModeCfg)>::empty());
        assert(a[0] == entries[0]);
        assert(modes_entries_text(a) =~= modes_entries_text(b) + mode_block_text(entries[0]));
    } else {
        lemma_modes_entries_snoc(entries.drop_first(), i - 1);
        assert(a.drop_first() =~= entries.drop_first().take(i));
        assert(b.drop_first() =~= entries.drop_first().take(i - 1));
        assert(entries.drop_first()[i - 1] == entries[i]);
        assert(a[0] == entries[0] && b[0] == entries[0]);
        assert(modes_entries_text(a) =~= modes_entries_text(b) + mode_block_text(entries[i]));
    }
}

impl Modes {
    /// Renders every mode block, in order.
    pub fn to_string(&self) -> (r: String)
        ensures
            r@ == modes_text(*self),
    {
        let mut acc = String::new();
        let mut i: usize = 0;
        proof {
            assert(self.0@.take(0) =~= Seq::<(String, ModeCfg)>::empty());
        }
        while i < self.0.len()
            invariant
                0 <= i <= self.0.len(),
                acc@ == modes_entries_text(self.0@.take(i as int)),
            decreases self.0.len() - i,
        {
            acc.append("# Configuration for mode ");
            acc.append(self.0[i].0.as_str());
            acc.append("\nmode ");
            acc.append(self.0[i].0.as_str());
            acc.append(" {\n");
            let body = self.0[i].1.to_string();
            let ind = indent(body.as_str(), 4);
            acc.append(ind.as_str());
            acc.append("\n}\n");
            proof {
                lemma_modes_entries_snoc(self.0@, i as int);
                assert(acc@ =~= modes_entries_text(self.0@.take(i + 1)));
            }
            i = i + 1;
        }
        proof {
            assert(self.0@.take(self.0.len() as int) =~= self.0@);
        }
        acc
    }
}

/// The text of the modes section.
pub open spec fn modes_section_text(modes: Option<Modes>) -> Seq<char> {
    match modes {
        Option::None => Seq::empty(),
        Option::Some(m) => commented(modes_text(m), "Mode configuration"@),
    }
}

/// Renders the modes section.
pub fn stringify_modes(modes: &Option<Modes>) -> (r: String)
    ensures
        r@ == modes_section_text(*modes),
{
    match modes {
        Option::Some(m) => with_comment_header(
            m.to_string(),
            String::from_str("Mode configuration"),
        ),
        Option::None => String::new(),
    }
}

/// The text of the bar section.
pub open spec fn bar_section_text(bar: Option<Bar>) -> Seq<char> {
    match bar {
        Option::None => Seq::empty(),
        Option::Some(b) => commented(bar_text(b), "Swaybar configuration"@),
    }
}

/// Renders the bar section.
pub fn stringify_bar(bar: &Option<Bar>) -> (r: String)
    ensures
        r@ == bar_section_text(*bar),
{
    match bar {
        Option::Some(b) => with_comment_header(
            b.to_string(),
            String::from_str("Swaybar configuration"),
        ),
        Option::None => String::new(),
    }
}

/// A whole configuration: every section the file may hold, in its fixed
/// order. Absent sections render as nothing.
#[derive(Debug, PartialEq, Eq)]
pub struct Config {
    /// Variable definitions, name to value.
    pub set: Option<Vec<(String, String)>>,
    /// Startup commands, run once when the compositor starts.
    pub execs: Option<Vec<ExecParams>>,
    /// Startup commands, run again on every reload.
    pub execs_always: Option<Vec<ExecParams>>,
    /// Default workspace layout and orientation.
    pub defaults: Option<Defaults>,
    /// Named modes with their own binding maps.
    pub modes: Option<Modes>,
    /// Key bindings, key combination to bound command.
    pub bindsym: Option<Vec<(String, KeylessBindsym)>>,
    /// Key-code bindings, code combination to bound command.
    pub bindcode: Option<Vec<(String, KeylessBindsym)>>,
    /// The bar block.
    pub bar: Option<Bar>,
}

/// The fixed header of every rendered configuration.
pub open spec fn config_header() -> Seq<char> {
    "This configuration was generated by the swayconf configurator.\nPlease note that this program does NOT validate your configuration, you\nwill need to run `sway -c [config file] -C` to do so."@
}

/// The text of a whole configuration: the header comment, then every
/// non-empty section in the fixed order.
pub open spec fn config_text(c: Config) -> Seq<char> {
    commented(Seq::empty(), config_header()) + sets_text(c.set) + exec_lines_text(
        c.execs,
        "exec"@,
        "Startup commands (using exec array)\nNote: these will only be run once; NOT when reload is called\nUse exec-always if you need this command run on reload"@,
    ) + exec_lines_text(
        c.execs_always,
        "exec-always"@,
        "Startup commands (using exec-always array)\nNote: these will be run every time that reload is called"@,
    ) + defaults_section_text(c.defaults) + modes_section_text(c.modes) + bind_map_text(
        c.bindsym,
        "bindsym"@,
        "User-defined bindsym commands (using [bindsym] table)"@,
    ) + bind_map_text(
        c.bindcode,
        "bindcode"@,
        "User-defined bindcode commands (using [bindcode] table)"@,
    ) + bar_section_text(c.bar)
}

impl Config {
    /// Renders the whole configuration.
    pub fn to_string(&self) -> (r: String)
        ensures
            r@ == config_text(*self),
    {
        let mut acc = with_comment_header(
            String::new(),
            String::from_str(
                "This configuration was generated by the swayconf configurator.\nPlease note that this program does NOT validate your configuration, you\nwill need to run `sway -c [config file] -C` to do so.",
            ),
        );
        let s1 = stringify_sets(&self.set);
        acc.append(s1.as_str());
        let s2 = stringify_exec(&self.execs);
        acc.append(s2.as_str());
        let s3 = stringify_exec_always(&self.execs_always);
        acc.append(s3.as_str());
        let s4 = stringify_defaults(&self.defaults);
        acc.append(s4.as_str());
        let s5 = stringify_modes(&self.modes);
        acc.append(s5.as_str());
        let s6 = stringify_bindsyms(&self.bindsym);
        acc.append(s6.as_str());
        let s7 = stringify_bindcodes(&self.bindcode);
        acc.append(s7.as_str());
        let s8 = stringify_bar(&self.bar);
        acc.append(s8.as_str());
        proof {
            assert(acc@ =~= config_text(*self));
        }
        acc
    }
}

impl Default for Config {
    /// A configuration with nothing set.
    fn default() -> (r: Self)
        ensures
            r.set is None,
            r.execs is None,
            r.execs_always is None,
            r.defaults is None,
            r.modes is None,
            r.bindsym is None,
            r.bindcode is None,
            r.bar is None,
    {
        Config {
            set: Option::None,
            execs: Option::None,
            execs_always: Option::None,
            defaults: Option::None,
            modes: Option::None,
            bindsym: Option::None,
            bindcode: Option::None,
            bar: Option::None,
        }
    }
}

} // verus!
