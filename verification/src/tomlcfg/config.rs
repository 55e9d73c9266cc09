//! Decoders for the commands that appear in a configuration file: startup
//! commands, key bindings, variables, the bar block, and file includes.
use crate::sway::commands::{is_config_cmd, renderable, CommandsV, Config};
use crate::text::{split_sep, split_str, str_eq};
use crate::tomlcfg::base::{as_bool, as_str, as_table, find, find_opt, tbl_get, Toml, TomlV};
use crate::tomlcfg::options::{collect_bindsym_args, opt_bool, spec_collect_bindsym_args,
    to_string_vec};
use crate::tomlcfg::runtime::{exec_command, parse_runtime, spec_exec_command, spec_parse_runtime};
use crate::tomlcfg::{parse_view, ParseError, ParseErrorV, ParseResult};
use vstd::prelude::*;

verus! {

/// What decoding a configuration `exec` yields.
pub open spec fn spec_parse_exec(v: TomlV) -> Result<CommandsV, ParseErrorV> {
    match spec_exec_command(v) {
        Ok(c) => Ok(CommandsV::Exec(c)),
        Err(e) => Err(e),
    }
}

/// Decodes a startup command from an `exec` table.
pub fn parse_exec(value: &Toml) -> (r: ParseResult<Config>)
    ensures
        parse_view(r) == spec_parse_exec(value@),
        r matches Ok(c) ==> renderable(c.deep_view()) && is_config_cmd(c.deep_view()),
{
    let c = exec_command(value)?;
    Ok(Config::Exec(c))
}

/// What decoding a configuration `exec-always` yields.
pub open spec fn spec_parse_exec_always(v: TomlV) -> Result<CommandsV, ParseErrorV> {
    match spec_exec_command(v) {
        Ok(c) => Ok(CommandsV::ExecAlways(c)),
        Err(e) => Err(e),
    }
}

/// Decodes a startup command from an `exec-always` table.
pub fn parse_exec_always(value: &Toml) -> (r: ParseResult<Config>)
    ensures
        parse_view(r) == spec_parse_exec_always(value@),
        r matches Ok(c) ==> renderable(c.deep_view()) && is_config_cmd(c.deep_view()),
{
    let c = exec_command(value)?;
    Ok(Config::ExecAlways(c))
}

/// What decoding a key binding with the keys already known yields: the bound
/// command is resolved from the same table through the runtime vocabulary,
/// and a binding that binds another key binding is rejected.
pub open spec fn spec_parse_bindsym_nokeys(keys: Seq<Seq<char>>, v: TomlV) -> Result<
    CommandsV,
    ParseErrorV,
> {
    match v {
        TomlV::Table(t) => match spec_parse_runtime(t) {
            Err(e) => Err(e),
            Ok(inner) => {
                if inner is Bindsym {
                    Err(ParseErrorV::ConflictKey("bindsym"@, "bindsym"@))
                } else {
                    match spec_collect_bindsym_args(t) {
                        Err(e) => Err(e),
                        Ok(flags) => Ok(
                            CommandsV::Bindsym { flags, keys, command: Box::new(inner) },
                        ),
                    }
                }
            },
        },
        _ => Err(ParseErrorV::IncorrectType(seq!["table"@])),
    }
}

/// Decodes a key binding from the given keys and a table holding the bound
/// command and the binding's flags.
pub fn parse_bindsym_nokeys(keys: Vec<String>, value: &Toml) -> (r: ParseResult<Config>)
    ensures
        parse_view(r) == spec_parse_bindsym_nokeys(keys.deep_view(), value@),
        r matches Ok(c) ==> renderable(c.deep_view()) && is_config_cmd(c.deep_view()),
{
    let t = as_table(value)?;
    let inner = parse_runtime(t)?;
    match &inner {
        crate::sway::commands::Runtime::Bindsym { .. } => Err(
            ParseError::ConflictKey(String::from_str("bindsym"), String::from_str("bindsym")),
        ),
        _ => {
            let flags = collect_bindsym_args(t)?;
            Ok(Config::Bindsym { flags, keys, command: Box::new(inner) })
        },
    }
}

/// What decoding a `bindsym` table yields: its `keys` string split at `+`,
/// then the binding itself.
pub open spec fn spec_parse_bindsym(v: TomlV) -> Result<CommandsV, ParseErrorV> {
    match v {
        TomlV::Table(t) => match tbl_get(t, "keys"@) {
            Option::None => Err(ParseErrorV::KeyNotFound("keys"@)),
            Option::Some(kv) => match kv {
                TomlV::Str(ks) => spec_parse_bindsym_nokeys(split_sep(ks, '+'), v),
                _ => Err(ParseErrorV::IncorrectType(seq!["string"@])),
            },
        },
        _ => Err(ParseErrorV::IncorrectType(seq!["table"@])),
    }
}

/// Decodes a key binding from a table that names its own keys.
pub fn parse_bindsym(value: &Toml) -> (r: ParseResult<Config>)
    ensures
        parse_view(r) == spec_parse_bindsym(value@),
        r matches Ok(c) ==> renderable(c.deep_view()) && is_config_cmd(c.deep_view()),
{
    let t = as_table(value)?;
    let kv = find(t, String::from_str("keys"))?;
    let ks = as_str(kv)?;
    let keys = split_str(ks.as_str(), '+');
    parse_bindsym_nokeys(keys, value)
}

/// What turning a name and a value node into a variable command yields: the
/// node must be a string.
pub open spec fn spec_gen_set(name: Seq<char>, v: TomlV) -> Result<CommandsV, ParseErrorV> {
    match v {
        TomlV::Str(val) => Ok(CommandsV::SetVar { name, value: val }),
        _ => Err(ParseErrorV::IncorrectType(seq!["string"@])),
    }
}

/// Builds a variable command from its name and its value node.
pub fn gen_set(name: String, v: &Toml) -> (r: ParseResult<Config>)
    ensures
        parse_view(r) == spec_gen_set(name@, v@),
        r matches Ok(c) ==> renderable(c.deep_view()) && is_config_cmd(c.deep_view()),
{
    let val = as_str(v)?;
    Ok(Config::SetVar { name, value: val.clone() })
}

/// What decoding a `set` table yields: the required `name` and `value`
/// strings.
pub open spec fn spec_parse_set(v: TomlV) -> Result<CommandsV, ParseErrorV> {
    match v {
        TomlV::Table(t) => match tbl_get(t, "name"@) {
            Option::None => Err(ParseErrorV::KeyNotFound("name"@)),
            Option::Some(nv) => match nv {
                TomlV::Str(name) => match tbl_get(t, "value"@) {
                    Option::None => Err(ParseErrorV::KeyNotFound("value"@)),
                    Option::Some(vv) => spec_gen_set(name, vv),
                },
                _ => Err(ParseErrorV::IncorrectType(seq!["string"@])),
            },
        },
        _ => Err(ParseErrorV::IncorrectType(seq!["table"@])),
    }
}

/// Decodes a variable command from a `set` table.
pub fn parse_set(value: &Toml) -> (r: ParseResult<Config>)
    ensures
        parse_view(r) == spec_parse_set(value@),
        r matches Ok(c) ==> renderable(c.deep_view()) && is_config_cmd(c.deep_view()),
{
    let t = as_table(value)?;
    let nv = find(t, String::from_str("name"))?;
    let name = as_str(nv)?;
    let vv = find(t, String::from_str("value"))?;
    gen_set(name.clone(), vv)
}

/// What decoding a `bar` table yields: an optional `id` (empty when absent)
/// and the required `status-command` string.
pub open spec fn spec_parse_bar(v: TomlV) -> Result<CommandsV, ParseErrorV> {
    match v {
        TomlV::Table(t) => {
            let id = match tbl_get(t, "id"@) {
                Option::None => Ok(Seq::<char>::empty()),
                Option::Some(iv) => match iv {
                    TomlV::Str(s) => Ok(s),
                    _ => Err(ParseErrorV::IncorrectType(seq!["string"@])),
                },
            };
            match id {
                Err(e) => Err(e),
                Ok(bar_id) => match tbl_get(t, "status-command"@) {
                    Option::None => Err(ParseErrorV::KeyNotFound("status-command"@)),
                    Option::Some(sv) => match sv {
                        TomlV::Str(sc) => Ok(CommandsV::Bar { bar_id, subcommands: sc }),
                        _ => Err(ParseErrorV::IncorrectType(seq!["string"@])),
                    },
                },
            }
        },
        _ => Err(ParseErrorV::IncorrectType(seq!["table"@])),
    }
}

/// Decodes a bar block from a `bar` table.
pub fn parse_bar(value: &Toml) -> (r: ParseResult<Config>)
    ensures
        parse_view(r) == spec_parse_bar(value@),
        r matches Ok(c) ==> renderable(c.deep_view()) && is_config_cmd(c.deep_view()),
{
    let t = as_table(value)?;
    let bar_id = match find_opt(t, String::from_str("id")) {
        Option::Some(iv) => as_str(iv)?.clone(),
        Option::None => String::new(),
    };
    let sv = find(t, String::from_str("status-command"))?;
    let sc = as_str(sv)?;
    Ok(Config::Bar { bar_id, subcommands: sc.clone() })
}

/// What decoding a configuration `kill` yields: any boolean marks the
/// command.
pub open spec fn spec_parse_kill(v: TomlV) -> Result<CommandsV, ParseErrorV> {
    match v {
        TomlV::Bool(_) => Ok(CommandsV::Kill),
        _ => Err(ParseErrorV::IncorrectType(seq!["boolean"@])),
    }
}

/// Decodes a `kill` command.
pub fn parse_kill(value: &Toml) -> (r: ParseResult<Config>)
    ensures
        parse_view(r) == spec_parse_kill(value@),
        r matches Ok(c) ==> renderable(c.deep_view()) && is_config_cmd(c.deep_view()),
{
    let _ = as_bool(value)?;
    Ok(Config::Kill)
}

/// Whether the path ends in a `.toml` extension that the include rule strips:
/// a final `.toml` with a non-empty file stem before it.
pub open spec fn strips_toml_ext(s: Seq<char>) -> bool {
    s.len() > 5 && s.subrange(s.len() - 5, s.len() as int) == ".toml"@ && s[s.len() - 6] != '/'
}

/// What decoding an `include` yields: the path string, with a trailing
/// `.toml` extension stripped so the include names the generated file.
pub open spec fn spec_parse_include(v: TomlV) -> Result<CommandsV, ParseErrorV> {
    match v {
        TomlV::Str(s) => {
            if strips_toml_ext(s) {
                Ok(CommandsV::Include(s.take(s.len() - 5)))
            } else {
                Ok(CommandsV::Include(s))
            }
        },
        _ => Err(ParseErrorV::IncorrectType(seq!["string"@])),
    }
}

/// Decodes a file include from its path string.
pub fn parse_include(value: &Toml) -> (r: ParseResult<Config>)
    ensures
        parse_view(r) == spec_parse_include(value@),
        r matches Ok(c) ==> renderable(c.deep_view()) && is_config_cmd(c.deep_view()),
{
    let s = as_str(value)?;
    let len = s.as_str().unicode_len();
    if len > 5 {
        let ext = s.as_str().substring_char(len - 5, len);
        let before = s.as_str().get_char(len - 6);
        if str_eq(ext, ".toml") && before != '/' {
            proof {
                assert(strips_toml_ext(s@));
            }
            let stem = s.as_str().substring_char(0, len - 5);
            return Ok(Config::Include(stem.to_owned()));
        }
    }
    proof {
        assert(!strips_toml_ext(s@));
    }
    Ok(Config::Include(s.clone()))
}

} // verus!
