//! Assembles a whole configuration file: decodes each section of the input
//! tree ([set], [include], [exec], [exec-always], [bindsym], [bar]) and lays
//! the commands out under fixed comment headers, in a fixed section order,
//! leaving empty sections out entirely.
use crate::sway::commands::{is_config_cmd, renderable, cmd_text, CommandsV, Config};
use crate::text::{join_with, split_sep, split_str};
use crate::tomlcfg::base::{find_opt, tbl_get, Table, Toml, TomlV};
use crate::tomlcfg::config::{
    parse_bar, parse_bindsym_nokeys, parse_exec, parse_exec_always, parse_include, gen_set,
    spec_gen_set, spec_parse_bar, spec_parse_bindsym_nokeys, spec_parse_exec,
    spec_parse_exec_always, spec_parse_include,
};
use crate::tomlcfg::options::to_string_vec;
use crate::tomlcfg::{parse_view, ParseError, ParseErrorV, ParseResult};
use vstd::prelude::*;

verus! {

/// Whether every command of the sequence is renderable and valid in a
/// configuration file.
pub open spec fn all_config_cmds(s: Seq<CommandsV>) -> bool {
    forall|i: int| 0 <= i < s.len() ==> renderable(#[trigger] s[i]) && is_config_cmd(s[i])
}

proof fn lemma_all_config_cmds_concat(a: Seq<CommandsV>, b: Seq<CommandsV>)
    requires
        all_config_cmds(a),
        all_config_cmds(b),
    ensures
        all_config_cmds(a + b),
{
    assert forall|i: int| 0 <= i < (a + b).len() implies renderable(#[trigger] (a + b)[i])
        && is_config_cmd((a + b)[i]) by {
        if i < a.len() {
            assert((a + b)[i] == a[i]);
        } else {
            assert((a + b)[i] == b[i - a.len()]);
        }
    }
}

/// A decoded configuration file: the path it will be written to, and its
/// commands in emission order.
#[derive(Debug, PartialEq, Eq)]
pub struct ConfigFile {
    pub path: String,
    pub commands: Vec<Config>,
}

impl ConfigFile {
    /// A configuration file from its path and commands.
    pub fn new(path: String, commands: Vec<Config>) -> (r: Self)
        ensures
            r.path@ == path@,
            r.commands.deep_view() == commands.deep_view(),
    {
        ConfigFile { path, commands }
    }

    /// Renders the whole file: each command's canonical text, one per line.
    pub fn to_string(&self) -> (r: String)
        requires
            forall|i: int|
                0 <= i < self.commands.deep_view().len() ==> renderable(
                    #[trigger] self.commands.deep_view()[i],
                ),
        ensures
            r@ == join_with(
                self.commands.deep_view().map_values(|c: CommandsV| cmd_text(c)),
                "\n"@,
            ),
    {
        let mut texts: Vec<String> = Vec::new();
        let mut i: usize = 0;
        proof {
            assert(texts.deep_view() =~= self.commands.deep_view().take(0).map_values(
                |c: CommandsV| cmd_text(c),
            ));
        }
        while i < self.commands.len()
            invariant
                0 <= i <= self.commands.len(),
                self.commands.deep_view().len() == self.commands.len(),
                forall|j: int|
                    0 <= j < self.commands.deep_view().len() ==> renderable(
                        #[trigger] self.commands.deep_view()[j],
                    ),
                texts.deep_view() == self.commands.deep_view().take(i as int).map_values(
                    |c: CommandsV| cmd_text(c),
                ),
            decreases self.commands.len() - i,
        {
            let ghost old_texts = texts.deep_view();
            proof {
                assert(self.commands.deep_view()[i as int] == self.commands@[i as int].deep_view());
            }
            let t = self.commands[i].to_string();
            texts.push(t);
            proof {
                assert(texts.deep_view() =~= old_texts.push(
                    cmd_text(self.commands.deep_view()[i as int]),
                ));
                assert(texts.deep_view() =~= self.commands.deep_view().take(i + 1).map_values(
                    |c: CommandsV| cmd_text(c),
                ));
            }
            i = i + 1;
        }
        proof {
            assert(self.commands.deep_view().take(self.commands.len() as int)
                =~= self.commands.deep_view());
        }
        crate::text::join_strings(&texts, "\n")
    }
}

/// What decoding a list of `include` entries yields, element by element.
pub open spec fn spec_include_list(items: Seq<TomlV>) -> Result<Seq<CommandsV>, ParseErrorV>
    decreases items.len(),
{
    if items.len() == 0 {
        Ok(Seq::empty())
    } else {
        match spec_parse_include(items[0]) {
            Err(e) => Err(e),
            Ok(c) => match spec_include_list(items.drop_first()) {
                Err(e) => Err(e),
                Ok(rest) => Ok(seq![c] + rest),
            },
        }
    }
}

/// What decoding the `include` section yields: an absent key is an empty
/// section; a present key must hold an array.
pub open spec fn spec_parse_includes(t: Seq<(Seq<char>, TomlV)>) -> Result<
    Seq<CommandsV>,
    ParseErrorV,
> {
    match tbl_get(t, "include"@) {
        Option::None => Ok(Seq::empty()),
        Option::Some(v) => match v {
            TomlV::Array(items) => spec_include_list(items),
            _ => Err(ParseErrorV::IncorrectType(seq!["array"@])),
        },
    }
}

/// What decoding a list of `exec` entries yields, element by element.
pub open spec fn spec_exec_list(items: Seq<TomlV>) -> Result<Seq<CommandsV>, ParseErrorV>
    decreases items.len(),
{
    if items.len() == 0 {
        Ok(Seq::empty())
    } else {
        match spec_parse_exec(items[0]) {
            Err(e) => Err(e),
            Ok(c) => match spec_exec_list(items.drop_first()) {
                Err(e) => Err(e),
                Ok(rest) => Ok(seq![c] + rest),
            },
        }
    }
}

/// What decoding the `exec` section yields.
pub open spec fn spec_parse_execs(t: Seq<(Seq<char>, TomlV)>) -> Result<
    Seq<CommandsV>,
    ParseErrorV,
> {
    match tbl_get(t, "exec"@) {
        Option::None => Ok(Seq::empty()),
        Option::Some(v) => match v {
            TomlV::Array(items) => spec_exec_list(items),
            _ => Err(ParseErrorV::IncorrectType(seq!["array"@])),
        },
    }
}

/// What decoding a list of `exec-always` entries yields.
pub open spec fn spec_exec_always_list(items: Seq<TomlV>) -> Result<Seq<CommandsV>, ParseErrorV>
    decreases items.len(),
{
    if items.len() == 0 {
        Ok(Seq::empty())
    } else {
        match spec_parse_exec_always(items[0]) {
            Err(e) => Err(e),
            Ok(c) => match spec_exec_always_list(items.drop_first()) {
                Err(e) => Err(e),
                Ok(rest) => Ok(seq![c] + rest),
            },
        }
    }
}

/// What decoding the `exec-always` section yields.
pub open spec fn spec_parse_execs_always(t: Seq<(Seq<char>, TomlV)>) -> Result<
    Seq<CommandsV>,
    ParseErrorV,
> {
    match tbl_get(t, "exec-always"@) {
        Option::None => Ok(Seq::empty()),
        Option::Some(v) => match v {
            TomlV::Array(items) => spec_exec_always_list(items),
            _ => Err(ParseErrorV::IncorrectType(seq!["array"@])),
        },
    }
}

/// What decoding the entries of a `[bindsym]` table yields: each key is a
/// key combination, split at `+`, bound to the command its value describes.
pub open spec fn spec_bindsym_entries(entries: Seq<(Seq<char>, TomlV)>) -> Result<
    Seq<CommandsV>,
    ParseErrorV,
>
    decreases entries.len(),
{
    if entries.len() == 0 {
        Ok(Seq::empty())
    } else {
        match spec_parse_bindsym_nokeys(split_sep(entries[0].0, '+'), entries[0].1) {
            Err(e) => Err(e),
            Ok(c) => match spec_bindsym_entries(entries.drop_first()) {
                Err(e) => Err(e),
                Ok(rest) => Ok(seq![c] + rest),
            },
        }
    }
}

/// What decoding the `bindsym` section yields: an absent key is an empty
/// section; a present key must hold a table.
pub open spec fn spec_parse_bindsyms(t: Seq<(Seq<char>, TomlV)>) -> Result<
    Seq<CommandsV>,
    ParseErrorV,
> {
    match tbl_get(t, "bindsym"@) {
        Option::None => Ok(Seq::empty()),
        Option::Some(v) => match v {
            TomlV::Table(entries) => spec_bindsym_entries(entries),
            _ => Err(ParseErrorV::IncorrectType(seq!["table"@])),
        },
    }
}

/// What decoding the entries of a `[set]` table yields: each key is a
/// variable name bound to its string value.
pub open spec fn spec_set_entries(entries: Seq<(Seq<char>, TomlV)>) -> Result<
    Seq<CommandsV>,
    ParseErrorV,
>
    decreases entries.len(),
{
    if entries.len() == 0 {
        Ok(Seq::empty())
    } else {
        match spec_gen_set(entries[0].0, entries[0].1) {
            Err(e) => Err(e),
            Ok(c) => match spec_set_entries(entries.drop_first()) {
                Err(e) => Err(e),
                Ok(rest) => Ok(seq![c] + rest),
            },
        }
    }
}

/// What decoding the `set` section yields.
pub open spec fn spec_parse_sets(t: Seq<(Seq<char>, TomlV)>) -> Result<
    Seq<CommandsV>,
    ParseErrorV,
> {
    match tbl_get(t, "set"@) {
        Option::None => Ok(Seq::empty()),
        Option::Some(v) => match v {
            TomlV::Table(entries) => spec_set_entries(entries),
            _ => Err(ParseErrorV::IncorrectType(seq!["table"@])),
        },
    }
}

/// What decoding the `bar` section yields: nothing when absent.
pub open spec fn spec_parse_bars(t: Seq<(Seq<char>, TomlV)>) -> Result<
    Option<CommandsV>,
    ParseErrorV,
> {
    match tbl_get(t, "bar"@) {
        Option::None => Ok(Option::None),
        Option::Some(v) => match spec_parse_bar(v) {
            Err(e) => Err(e),
            Ok(c) => Ok(Option::Some(c)),
        },
    }
}

/// Decodes the `include` section.
pub fn parse_includes(table: &Table) -> (r: ParseResult<Vec<Config>>)
    ensures
        parse_view(r) == spec_parse_includes(table@),
        r matches Ok(cs) ==> all_config_cmds(cs.deep_view()),
{
    match find_opt(table, String::from_str("include")) {
        Option::None => {
            let r: Vec<Config> = Vec::new();
            proof {
                assert(r.deep_view() =~= Seq::<CommandsV>::empty());
            }
            Ok(r)
        },
        Option::Some(v) => match v {
            Toml::Array(items) => {
                let mut out: Vec<Config> = Vec::new();
                let mut i: usize = 0;
                proof {
                    crate::tomlcfg::base::lemma_toml_arr_v(items@);
                    assert(out.deep_view() =~= Seq::<CommandsV>::empty());
                    let arr = (v@)->Array_0;
                    assert(arr.skip(0) =~= arr);
                    match spec_include_list(arr) {
                        Ok(rest) => {
                            assert(out.deep_view() + rest =~= rest);
                        },
                        Err(_) => {},
                    }
                }
                while i < items.len()
                    invariant
                        0 <= i <= items.len(),
                        v@ is Array,
                        tbl_get(table@, "include"@) == Some(v@),
                        items@.len() == (v@)->Array_0.len(),
                        forall|j: int|
                            0 <= j < items@.len() ==> (v@)->Array_0[j]
                                == crate::tomlcfg::base::toml_v(#[trigger] items@[j]),
                        all_config_cmds(out.deep_view()),
                        spec_include_list((v@)->Array_0) == (match spec_include_list(
                            (v@)->Array_0.skip(i as int),
                        ) {
                            Ok(rest) => Ok(out.deep_view() + rest),
                            Err(e) => Err::<Seq<CommandsV>, ParseErrorV>(e),
                        }),
                    decreases items.len() - i,
                {
                    proof {
                        assert((v@)->Array_0.skip(i as int)[0] == (v@)->Array_0[i as int]);
                        assert((v@)->Array_0.skip(i as int).drop_first() =~= (v@)->Array_0.skip(
                            i + 1,
                        ));
                    }
                    let c = parse_include(&items[i])?;
                    let ghost old_dv = out.deep_view();
                    let ghost cv = c.deep_view();
                    out.push(c);
                    proof {
                        assert(out.deep_view() =~= old_dv.push(cv));
                        assert(forall|rest: Seq<CommandsV>|
                            old_dv + (seq![cv] + rest) =~= #[trigger] (old_dv.push(cv) + rest));
                    }
                    i = i + 1;
                }
                proof {
                    assert((v@)->Array_0.skip(items.len() as int) =~= Seq::<TomlV>::empty());
                    assert(out.deep_view() + Seq::<CommandsV>::empty() =~= out.deep_view());
                }
                Ok(out)
            },
            _ => {
                let ts = to_string_vec(vec!["array"]);
                proof {
                    assert(ts.deep_view() =~= seq!["array"@]);
                }
                Err(ParseError::IncorrectType(ts))
            },
        },
    }
}

/// Decodes the `exec` section.
pub fn parse_execs(table: &Table) -> (r: ParseResult<Vec<Config>>)
    ensures
        parse_view(r) == spec_parse_execs(table@),
        r matches Ok(cs) ==> all_config_cmds(cs.deep_view()),
{
    match find_opt(table, String::from_str("exec")) {
        Option::None => {
            let r: Vec<Config> = Vec::new();
            proof {
                assert(r.deep_view() =~= Seq::<CommandsV>::empty());
            }
            Ok(r)
        },
        Option::Some(v) => match v {
            Toml::Array(items) => {
                let mut out: Vec<Config> = Vec::new();
                let mut i: usize = 0;
                proof {
                    crate::tomlcfg::base::lemma_toml_arr_v(items@);
                    assert(out.deep_view() =~= Seq::<CommandsV>::empty());
                    let arr = (v@)->Array_0;
                    assert(arr.skip(0) =~= arr);
                    match spec_exec_list(arr) {
                        Ok(rest) => {
                            assert(out.deep_view() + rest =~= rest);
                        },
                        Err(_) => {},
                    }
                }
                while i < items.len()
                    invariant
                        0 <= i <= items.len(),
                        v@ is Array,
                        tbl_get(table@, "exec"@) == Some(v@),
                        items@.len() == (v@)->Array_0.len(),
                        forall|j: int|
                            0 <= j < items@.len() ==> (v@)->Array_0[j]
                                == crate::tomlcfg::base::toml_v(#[trigger] items@[j]),
                        all_config_cmds(out.deep_view()),
                        spec_exec_list((v@)->Array_0) == (match spec_exec_list(
                            (v@)->Array_0.skip(i as int),
                        ) {
                            Ok(rest) => Ok(out.deep_view() + rest),
                            Err(e) => Err::<Seq<CommandsV>, ParseErrorV>(e),
                        }),
                    decreases items.len() - i,
                {
                    proof {
                        assert((v@)->Array_0.skip(i as int)[0] == (v@)->Array_0[i as int]);
                        assert((v@)->Array_0.skip(i as int).drop_first() =~= (v@)->Array_0.skip(
                            i + 1,
                        ));
                    }
                    let c = parse_exec(&items[i])?;
                    let ghost old_dv = out.deep_view();
                    let ghost cv = c.deep_view();
                    out.push(c);
                    proof {
                        assert(out.deep_view() =~= old_dv.push(cv));
                        assert(forall|rest: Seq<CommandsV>|
                            old_dv + (seq![cv] + rest) =~= #[trigger] (old_dv.push(cv) + rest));
                    }
                    i = i + 1;
                }
                proof {
                    assert((v@)->Array_0.skip(items.len() as int) =~= Seq::<TomlV>::empty());
                    assert(out.deep_view() + Seq::<CommandsV>::empty() =~= out.deep_view());
                }
                Ok(out)
            },
            _ => {
                let ts = to_string_vec(vec!["array"]);
                proof {
                    assert(ts.deep_view() =~= seq!["array"@]);
                }
                Err(ParseError::IncorrectType(ts))
            },
        },
    }
}

/// Decodes the `exec-always` section.
pub fn parse_execs_always(table: &Table) -> (r: ParseResult<Vec<Config>>)
    ensures
        parse_view(r) == spec_parse_execs_always(table@),
        r matches Ok(cs) ==> all_config_cmds(cs.deep_view()),
{
    match find_opt(table, String::from_str("exec-always")) {
        Option::None => {
            let r: Vec<Config> = Vec::new();
            proof {
                assert(r.deep_view() =~= Seq::<CommandsV>::empty());
            }
            Ok(r)
        },
        Option::Some(v) => match v {
            Toml::Array(items) => {
                let mut out: Vec<Config> = Vec::new();
                let mut i: usize = 0;
                proof {
                    crate::tomlcfg::base::lemma_toml_arr_v(items@);
                    assert(out.deep_view() =~= Seq::<CommandsV>::empty());
                    let arr = (v@)->Array_0;
                    assert(arr.skip(0) =~= arr);
                    match spec_exec_always_list(arr) {
                        Ok(rest) => {
                            assert(out.deep_view() + rest =~= rest);
                        },
                        Err(_) => {},
                    }
                }
                while i < items.len()
                    invariant
                        0 <= i <= items.len(),
                        v@ is Array,
                        tbl_get(table@, "exec-always"@) == Some(v@),
                        items@.len() == (v@)->Array_0.len(),
                        forall|j: int|
                            0 <= j < items@.len() ==> (v@)->Array_0[j]
                                == crate::tomlcfg::base::toml_v(#[trigger] items@[j]),
                        all_config_cmds(out.deep_view()),
                        spec_exec_always_list((v@)->Array_0) == (match spec_exec_always_list(
                            (v@)->Array_0.skip(i as int),
                        ) {
                            Ok(rest) => Ok(out.deep_view() + rest),
                            Err(e) => Err::<Seq<CommandsV>, ParseErrorV>(e),
                        }),
                    decreases items.len() - i,
                {
                    proof {
                        assert((v@)->Array_0.skip(i as int)[0] == (v@)->Array_0[i as int]);
                        assert((v@)->Array_0.skip(i as int).drop_first() =~= (v@)->Array_0.skip(
                            i + 1,
                        ));
                    }
                    let c = parse_exec_always(&items[i])?;
                    let ghost old_dv = out.deep_view();
                    let ghost cv = c.deep_view();
                    out.push(c);
                    proof {
                        assert(out.deep_view() =~= old_dv.push(cv));
                        assert(forall|rest: Seq<CommandsV>|
                            old_dv + (seq![cv] + rest) =~= #[trigger] (old_dv.push(cv) + rest));
                    }
                    i = i + 1;
                }
                proof {
                    assert((v@)->Array_0.skip(items.len() as int) =~= Seq::<TomlV>::empty());
                    assert(out.deep_view() + Seq::<CommandsV>::empty() =~= out.deep_view());
                }
                Ok(out)
            },
            _ => {
                let ts = to_string_vec(vec!["array"]);
                proof {
                    assert(ts.deep_view() =~= seq!["array"@]);
                }
                Err(ParseError::IncorrectType(ts))
            },
        },
    }
}

/// Decodes the `bindsym` section: every entry of the `[bindsym]` table, in
/// table order.
pub fn parse_bindsyms(t: &Table) -> (r: ParseResult<Vec<Config>>)
    ensures
        parse_view(r) == spec_parse_bindsyms(t@),
        r matches Ok(cs) ==> all_config_cmds(cs.deep_view()),
{
    match find_opt(t, String::from_str("bindsym")) {
        Option::None => {
            let r: Vec<Config> = Vec::new();
            proof {
                assert(r.deep_view() =~= Seq::<CommandsV>::empty());
            }
            Ok(r)
        },
        Option::Some(v) => match v {
            Toml::Table(tab) => {
                let mut out: Vec<Config> = Vec::new();
                let mut i: usize = 0;
                proof {
                    crate::tomlcfg::base::lemma_table_entries_v(tab.0@);
                    assert(out.deep_view() =~= Seq::<CommandsV>::empty());
                    let entries = (v@)->Table_0;
                    assert(entries.skip(0) =~= entries);
                    match spec_bindsym_entries(entries) {
                        Ok(rest) => {
                            assert(out.deep_view() + rest =~= rest);
                        },
                        Err(_) => {},
                    }
                }
                while i < tab.0.len()
                    invariant
                        0 <= i <= tab.0.len(),
                        v@ is Table,
                        tbl_get(t@, "bindsym"@) == Some(v@),
                        tab.0@.len() == (v@)->Table_0.len(),
                        forall|j: int|
                            0 <= j < tab.0@.len() ==> (v@)->Table_0[j] == (
                            (#[trigger] tab.0@[j]).0@,
                            crate::tomlcfg::base::toml_v(tab.0@[j].1),
                            ),
                        all_config_cmds(out.deep_view()),
                        spec_bindsym_entries((v@)->Table_0) == (match spec_bindsym_entries(
                            (v@)->Table_0.skip(i as int),
                        ) {
                            Ok(rest) => Ok(out.deep_view() + rest),
                            Err(e) => Err::<Seq<CommandsV>, ParseErrorV>(e),
                        }),
                    decreases tab.0.len() - i,
                {
                    proof {
                        assert((v@)->Table_0.skip(i as int)[0] == (v@)->Table_0[i as int]);
                        assert((v@)->Table_0.skip(i as int).drop_first() =~= (v@)->Table_0.skip(
                            i + 1,
                        ));
                    }
                    let keys = split_str(tab.0[i].0.as_str(), '+');
                    let c = parse_bindsym_nokeys(keys, &tab.0[i].1)?;
                    let ghost old_dv = out.deep_view();
                    let ghost cv = c.deep_view();
                    out.push(c);
                    proof {
                        assert(out.deep_view() =~= old_dv.push(cv));
                        assert(forall|rest: Seq<CommandsV>|
                            old_dv + (seq![cv] + rest) =~= #[trigger] (old_dv.push(cv) + rest));
                    }
                    i = i + 1;
                }
                proof {
                    assert((v@)->Table_0.skip(tab.0.len() as int) =~= Seq::<
                        (Seq<char>, TomlV),
                    >::empty());
                    assert(out.deep_view() + Seq::<CommandsV>::empty() =~= out.deep_view());
                }
                Ok(out)
            },
            _ => {
                let ts = to_string_vec(vec!["table"]);
                proof {
                    assert(ts.deep_view() =~= seq!["table"@]);
                }
                Err(ParseError::IncorrectType(ts))
            },
        },
    }
}

/// Decodes the `set` section: every entry of the `[set]` table, in table
/// order.
pub fn parse_sets(t: &Table) -> (r: ParseResult<Vec<Config>>)
    ensures
        parse_view(r) == spec_parse_sets(t@),
        r matches Ok(cs) ==> all_config_cmds(cs.deep_view()),
{
    match find_opt(t, String::from_str("set")) {
        Option::None => {
            let r: Vec<Config> = Vec::new();
            proof {
                assert(r.deep_view() =~= Seq::<CommandsV>::empty());
            }
            Ok(r)
        },
        Option::Some(v) => match v {
            Toml::Table(tab) => {
                let mut out: Vec<Config> = Vec::new();
                let mut i: usize = 0;
                proof {
                    crate::tomlcfg::base::lemma_table_entries_v(tab.0@);
                    assert(out.deep_view() =~= Seq::<CommandsV>::empty());
                    let entries = (v@)->Table_0;
                    assert(entries.skip(0) =~= entries);
                    match spec_set_entries(entries) {
                        Ok(rest) => {
                            assert(out.deep_view() + rest =~= rest);
                        },
                        Err(_) => {},
                    }
                }
                while i < tab.0.len()
                    invariant
                        0 <= i <= tab.0.len(),
                        v@ is Table,
                        tbl_get(t@, "set"@) == Some(v@),
                        tab.0@.len() == (v@)->Table_0.len(),
                        forall|j: int|
                            0 <= j < tab.0@.len() ==> (v@)->Table_0[j] == (
                            (#[trigger] tab.0@[j]).0@,
                            crate::tomlcfg::base::toml_v(tab.0@[j].1),
                            ),
                        all_config_cmds(out.deep_view()),
                        spec_set_entries((v@)->Table_0) == (match spec_set_entries(
                            (v@)->Table_0.skip(i as int),
                        ) {
                            Ok(rest) => Ok(out.deep_view() + rest),
                            Err(e) => Err::<Seq<CommandsV>, ParseErrorV>(e),
                        }),
                    decreases tab.0.len() - i,
                {
                    proof {
                        assert((v@)->Table_0.skip(i as int)[0] == (v@)->Table_0[i as int]);
                        assert((v@)->Table_0.skip(i as int).drop_first() =~= (v@)->Table_0.skip(
                            i + 1,
                        ));
                    }
                    let name = tab.0[i].0.clone();
                    let c = gen_set(name, &tab.0[i].1)?;
                    let ghost old_dv = out.deep_view();
                    let ghost cv = c.deep_view();
                    out.push(c);
                    proof {
                        assert(out.deep_view() =~= old_dv.push(cv));
                        assert(forall|rest: Seq<CommandsV>|
                            old_dv + (seq![cv] + rest) =~= #[trigger] (old_dv.push(cv) + rest));
                    }
                    i = i + 1;
                }
                proof {
                    assert((v@)->Table_0.skip(tab.0.len() as int) =~= Seq::<
                        (Seq<char>, TomlV),
                    >::empty());
                    assert(out.deep_view() + Seq::<CommandsV>::empty() =~= out.deep_view());
                }
                Ok(out)
            },
            _ => {
                let ts = to_string_vec(vec!["table"]);
                proof {
                    assert(ts.deep_view() =~= seq!["table"@]);
                }
                Err(ParseError::IncorrectType(ts))
            },
        },
    }
}

/// The fixed banner that opens every generated file.
pub open spec fn banner_cmds() -> Seq<CommandsV> {
    seq![
        CommandsV::Comment(
            "This configuration file was generated using the swayconf automated configurator."@,
        ),
        CommandsV::Comment("Please note that some sway features may not be fully supported."@),
        CommandsV::Comment(""@),
        CommandsV::Comment(
            "If you need any additional functionality that is not provided in swayconf, you can"@,
        ),
        CommandsV::Comment(
            "add it to this file, just note that it may be lost if you regenerate this file."@,
        ),
    ]
}

/// A section of the file: its comment headers, the commands, and one closing
/// blank line; an empty section leaves no text at all, not even its headers.
pub open spec fn section_cmds(items: Seq<CommandsV>, headers: Seq<Seq<char>>) -> Seq<CommandsV> {
    if items.len() == 0 {
        Seq::empty()
    } else {
        headers.map_values(|h: Seq<char>| CommandsV::Comment(h)) + items + seq![CommandsV::Blank]
    }
}

/// The bar section: the bar block under its header, or nothing.
pub open spec fn bar_cmds(bar: Option<CommandsV>) -> Seq<CommandsV> {
    match bar {
        Option::None => Seq::empty(),
        Option::Some(b) => seq![
            CommandsV::Comment("swaybar configuration provided in the [bindsym] table"@),
            b,
        ],
    }
}

proof fn lemma_section_all_config(items: Seq<CommandsV>, headers: Seq<Seq<char>>)
    requires
        all_config_cmds(items),
    ensures
        all_config_cmds(section_cmds(items, headers)),
{
    if items.len() > 0 {
        let s = section_cmds(items, headers);
        assert forall|i: int| 0 <= i < s.len() implies renderable(#[trigger] s[i])
            && is_config_cmd(s[i]) by {
            if i < headers.len() {
                assert(s[i] == CommandsV::Comment(headers[i]));
            } else if i < headers.len() + items.len() {
                assert(s[i] == items[i - headers.len()]);
            } else {
                assert(s[i] == CommandsV::Blank);
            }
        }
    }
}

/// What assembling a whole file yields: the sections decoded in their fixed
/// order, laid out as the banner, then each non-empty section under its
/// headers, the bar last.
pub open spec fn spec_asm_commands(t: Seq<(Seq<char>, TomlV)>) -> Result<
    Seq<CommandsV>,
    ParseErrorV,
> {
    match spec_parse_sets(t) {
        Err(e) => Err(e),
        Ok(sets) => match spec_parse_includes(t) {
            Err(e) => Err(e),
            Ok(includes) => match spec_parse_execs(t) {
                Err(e) => Err(e),
                Ok(execs) => match spec_parse_execs_always(t) {
                    Err(e) => Err(e),
                    Ok(execs_always) => match spec_parse_bindsyms(t) {
                        Err(e) => Err(e),
                        Ok(binds) => match spec_parse_bars(t) {
                            Err(e) => Err(e),
                            Ok(bar) => Ok(
                                banner_cmds() + seq![CommandsV::Blank] + section_cmds(
                                    sets,
                                    seq!["Sway variables used in the [set] table"@],
                                ) + section_cmds(
                                    includes,
                                    seq![
                                        "Other files included in the [include] array"@,
                                        "Note: if any TOML files were included, you will need to generate those as well."@,
                                    ],
                                ) + section_cmds(
                                    execs,
                                    seq![
                                        "Autostart applications in the [exec] array"@,
                                        "Note: These will NOT run on a config reload"@,
                                    ],
                                ) + section_cmds(
                                    execs_always,
                                    seq![
                                        "Autostart applications in the [exec-always] array"@,
                                        "These will run again on a config reload"@,
                                    ],
                                ) + section_cmds(
                                    binds,
                                    seq!["Keybinds provided in the [bindsym] table"@],
                                ) + bar_cmds(bar),
                            ),
                        },
                    },
                },
            },
        },
    }
}

/// Assembles a configuration file from an input tree: decodes every section
/// and lays the commands out, banner first, each non-empty section under its
/// fixed headers, the bar last. Every command of a successful assembly is
/// renderable and valid in a configuration file.
#[verifier::rlimit(100)]
#[verifier::spinoff_prover]
pub fn asm_config(path: String, table: &Table) -> (r: ParseResult<ConfigFile>)
    ensures
        match r {
            Ok(cf) => {
                &&& cf.path@ == path@
                &&& spec_asm_commands(table@) == Ok::<Seq<CommandsV>, ParseErrorV>(
                    cf.commands.deep_view(),
                )
                &&& all_config_cmds(cf.commands.deep_view())
            },
            Err(e) => spec_asm_commands(table@) == Err::<Seq<CommandsV>, ParseErrorV>(e@),
        },
{
    let mut sets = parse_sets(table)?;
    let ghost sets_dv = sets.deep_view();
    let mut includes = parse_includes(table)?;
    let ghost includes_dv = includes.deep_view();
    let mut execs = parse_execs(table)?;
    let ghost execs_dv = execs.deep_view();
    let mut execs_always = parse_execs_always(table)?;
    let ghost execs_always_dv = execs_always.deep_view();
    let mut bindsyms = parse_bindsyms(table)?;
    let ghost bindsyms_dv = bindsyms.deep_view();
    let bar = parse_bars(table)?;

    let mut commands: Vec<Config> = Vec::new();
    commands.push(
        Config::Comment(
            String::from_str(
                "This configuration file was generated using the swayconf automated configurator.",
            ),
        ),
    );
    commands.push(
        Config::Comment(
            String::from_str("Please note that some sway features may not be fully supported."),
        ),
    );
    commands.push(Config::Comment(String::from_str("")));
    commands.push(
        Config::Comment(
            String::from_str(
                "If you need any additional functionality that is not provided in swayconf, you can",
            ),
        ),
    );
    commands.push(
        Config::Comment(
            String::from_str(
                "add it to this file, just note that it may be lost if you regenerate this file.",
            ),
        ),
    );
    commands.push(Config::Blank);
    let ghost acc0 = banner_cmds() + seq![CommandsV::Blank];
    proof {
        assert(commands.deep_view() =~= acc0);
        assert forall|i: int| 0 <= i < acc0.len() implies renderable(#[trigger] acc0[i])
            && is_config_cmd(acc0[i]) by {}
    }

    if sets.len() > 0 {
        commands.push(
            Config::Comment(String::from_str("Sway variables used in the [set] table")),
        );
        commands.append(&mut sets);
        commands.push(Config::Blank);
    }
    let ghost sec1 = section_cmds(sets_dv, seq!["Sway variables used in the [set] table"@]);
    let ghost acc1 = acc0 + sec1;
    proof {
        assert(seq!["Sway variables used in the [set] table"@].map_values(
            |h: Seq<char>| CommandsV::Comment(h),
        ) =~= seq![CommandsV::Comment("Sway variables used in the [set] table"@)]);
        assert(commands.deep_view() =~= acc1);
        lemma_section_all_config(sets_dv, seq!["Sway variables used in the [set] table"@]);
        lemma_all_config_cmds_concat(acc0, sec1);
    }

    if includes.len() > 0 {
        commands.push(
            Config::Comment(String::from_str("Other files included in the [include] array")),
        );
        commands.push(
            Config::Comment(
                String::from_str(
                    "Note: if any TOML files were included, you will need to generate those as well.",
                ),
            ),
        );
        commands.append(&mut includes);
        commands.push(Config::Blank);
    }
    let ghost hdr2 = seq![
        "Other files included in the [include] array"@,
        "Note: if any TOML files were included, you will need to generate those as well."@,
    ];
    let ghost sec2 = section_cmds(includes_dv, hdr2);
    let ghost acc2 = acc1 + sec2;
    proof {
        assert(hdr2.map_values(|h: Seq<char>| CommandsV::Comment(h)) =~= seq![
            CommandsV::Comment("Other files included in the [include] array"@),
            CommandsV::Comment(
                "Note: if any TOML files were included, you will need to generate those as well."@,
            ),
        ]);
        assert(commands.deep_view() =~= acc2);
        lemma_section_all_config(includes_dv, hdr2);
        lemma_all_config_cmds_concat(acc1, sec2);
    }

    if execs.len() > 0 {
        commands.push(
            Config::Comment(String::from_str("Autostart applications in the [exec] array")),
        );
        commands.push(
            Config::Comment(String::from_str("Note: These will NOT run on a config reload")),
        );
        commands.append(&mut execs);
        commands.push(Config::Blank);
    }
    let ghost hdr3 = seq![
        "Autostart applications in the [exec] array"@,
        "Note: These will NOT run on a config reload"@,
    ];
    let ghost sec3 = section_cmds(execs_dv, hdr3);
    let ghost acc3 = acc2 + sec3;
    proof {
        assert(hdr3.map_values(|h: Seq<char>| CommandsV::Comment(h)) =~= seq![
            CommandsV::Comment("Autostart applications in the [exec] array"@),
            CommandsV::Comment("Note: These will NOT run on a config reload"@),
        ]);
        assert(commands.deep_view() =~= acc3);
        lemma_section_all_config(execs_dv, hdr3);
        lemma_all_config_cmds_concat(acc2, sec3);
    }

    if execs_always.len() > 0 {
        commands.push(
            Config::Comment(
                String::from_str("Autostart applications in the [exec-always] array"),
            ),
        );
        commands.push(
            Config::Comment(String::from_str("These will run again on a config reload")),
        );
        commands.append(&mut execs_always);
        commands.push(Config::Blank);
    }
    let ghost hdr4 = seq![
        "Autostart applications in the [exec-always] array"@,
        "These will run again on a config reload"@,
    ];
    let ghost sec4 = section_cmds(execs_always_dv, hdr4);
    let ghost acc4 = acc3 + sec4;
    proof {
        assert(hdr4.map_values(|h: Seq<char>| CommandsV::Comment(h)) =~= seq![
            CommandsV::Comment("Autostart applications in the [exec-always] array"@),
            CommandsV::Comment("These will run again on a config reload"@),
        ]);
        assert(commands.deep_view() =~= acc4);
        lemma_section_all_config(execs_always_dv, hdr4);
        lemma_all_config_cmds_concat(acc3, sec4);
    }

    if bindsyms.len() > 0 {
        commands.push(
            Config::Comment(String::from_str("Keybinds provided in the [bindsym] table")),
        );
        commands.append(&mut bindsyms);
        commands.push(Config::Blank);
    }
    let ghost hdr5 = seq!["Keybinds provided in the [bindsym] table"@];
    let ghost sec5 = section_cmds(bindsyms_dv, hdr5);
    let ghost acc5 = acc4 + sec5;
    proof {
        assert(hdr5.map_values(|h: Seq<char>| CommandsV::Comment(h)) =~= seq![
            CommandsV::Comment("Keybinds provided in the [bindsym] table"@),
        ]);
        assert(commands.deep_view() =~= acc5);
        lemma_section_all_config(bindsyms_dv, hdr5);
        lemma_all_config_cmds_concat(acc4, sec5);
    }

    let ghost bar_dv = bar.deep_view();
    match bar {
        Option::Some(b) => {
            commands.push(
                Config::Comment(
                    String::from_str("swaybar configuration provided in the [bindsym] table"),
                ),
            );
            commands.push(b);
        },
        Option::None => (),
    }
    let ghost acc6 = acc5 + bar_cmds(bar_dv);
    proof {
        assert(commands.deep_view() =~= acc6);
        assert(all_config_cmds(bar_cmds(bar_dv)));
        lemma_all_config_cmds_concat(acc5, bar_cmds(bar_dv));
    }

    Ok(ConfigFile::new(path, commands))
}

/// Decodes the `bar` section.
pub fn parse_bars(table: &Table) -> (r: ParseResult<Option<Config>>)
    ensures
        match r {
            Ok(b) => spec_parse_bars(table@) == Ok::<Option<CommandsV>, ParseErrorV>(
                b.deep_view(),
            ) && (b matches Option::Some(c) ==> renderable(c.deep_view()) && is_config_cmd(
                c.deep_view(),
            )),
            Err(e) => spec_parse_bars(table@) == Err::<Option<CommandsV>, ParseErrorV>(e@),
        },
{
    match find_opt(table, String::from_str("bar")) {
        Option::Some(v) => {
            let b = parse_bar(v)?;
            Ok(Option::Some(b))
        },
        Option::None => Ok(Option::None),
    }
}


/// Rendering is deterministic: two renderings of the same command sequence
/// are the same text, character for character.
pub proof fn lemma_render_idempotent(cmds: Seq<CommandsV>, r1: Seq<char>, r2: Seq<char>)
    requires
        r1 == join_with(cmds.map_values(|c: CommandsV| cmd_text(c)), "\n"@),
        r2 == join_with(cmds.map_values(|c: CommandsV| cmd_text(c)), "\n"@),
    ensures
        r1 == r2,
{
}


impl ConfigFile {
    /// Whether every command of the file can be rendered. It holds of every
    /// assembled file; a caller that builds a file by hand checks it before
    /// rendering.
    pub fn all_renderable(&self) -> (r: bool)
        ensures
            r == (forall|i: int|
                0 <= i < self.commands.deep_view().len() ==> renderable(
                    #[trigger] self.commands.deep_view()[i],
                )),
    {
        let mut i: usize = 0;
        while i < self.commands.len()
            invariant
                0 <= i <= self.commands.len(),
                self.commands.deep_view().len() == self.commands.len(),
                forall|j: int|
                    0 <= j < i ==> renderable(#[trigger] self.commands.deep_view()[j]),
            decreases self.commands.len() - i,
        {
            proof {
                assert(self.commands.deep_view()[i as int]
                    == self.commands@[i as int].deep_view());
            }
            if !self.commands[i].is_renderable() {
                return false;
            }
            i = i + 1;
        }
        true
    }
}

} // verus!
