//! Decodes a runtime command from a table node. The table must hold exactly
//! one recognized discriminant key; its value is decoded by the sub-decoder
//! registered for that discriminant, recursively for the command bound inside
//! a `bindsym`.
use crate::sway::commands::{is_runtime_cmd, renderable, CommandsV, Runtime, SubFocus, SubFocusV, SubLayout, SubLayoutV, SubMove, SubMoveV};
use crate::sway::layout::LayoutCycleMulti;
use crate::sway::options::{FocusSibling, RelWorkspace, Units};
use crate::text::{join_with, split_sep, split_str, str_eq};
use crate::tomlcfg::base::{
    as_bool, as_integer, as_str, as_table, find, find_opt, lemma_tbl_get_decreases, one_of,
    spec_found_keys, spec_one_of, table, tbl_get, Table, Toml, TomlV,
};
use crate::tomlcfg::options::{
    collect_bindsym_args, opt_bool, parse_directional, parse_hierarchy, parse_layoutcyclemulti,
    parse_layoutcyclesingle, parse_layoutopt, parse_sibling, parse_size, parse_splitopt,
    parse_togglable_bool, spec_collect_bindsym_args, spec_parse_directional, spec_parse_hierarchy,
    spec_parse_layoutcyclemulti, spec_parse_layoutcyclesingle, spec_parse_layoutopt,
    spec_parse_sibling, spec_parse_size, spec_parse_splitopt, spec_parse_togglable_bool,
    spec_parse_units, spec_opt_bool, parse_units, to_string_vec, to_u8, to_u8_opt, to_i8, wrap_i8, wrap_u8,
};
use crate::tomlcfg::{parse_view, ParseError, ParseErrorV, ParseResult};
use vstd::prelude::*;

verus! {

/// The runtime discriminant vocabulary, in its fixed order.
pub open spec fn runtime_cands() -> Seq<Seq<char>> {
    seq![
        "exit"@,
        "floating"@,
        "focus"@,
        "layout"@,
        "move"@,
        "reload"@,
        "resize"@,
        "split"@,
        "bindsym"@,
        "exec"@,
        "exec-always"@,
        "kill"@,
        "set"@,
        "workspace"@,
    ]
}

/// What decoding `exit` yields: any boolean marks the command.
pub open spec fn spec_parse_exit(v: TomlV) -> Result<CommandsV, ParseErrorV> {
    match v {
        TomlV::Bool(_) => Ok(CommandsV::Exit),
        _ => Err(ParseErrorV::IncorrectType(seq!["boolean"@])),
    }
}

fn parse_exit(value: &Toml) -> (r: ParseResult<Runtime>)
    ensures
        parse_view(r) == spec_parse_exit(value@),
        r matches Ok(c) ==> renderable(c.deep_view()) && is_runtime_cmd(c.deep_view()),
{
    let _ = as_bool(value)?;
    Ok(Runtime::Exit)
}

/// What decoding `reload` yields: any boolean marks the command.
pub open spec fn spec_parse_reload(v: TomlV) -> Result<CommandsV, ParseErrorV> {
    match v {
        TomlV::Bool(_) => Ok(CommandsV::Reload),
        _ => Err(ParseErrorV::IncorrectType(seq!["boolean"@])),
    }
}

fn parse_reload(value: &Toml) -> (r: ParseResult<Runtime>)
    ensures
        parse_view(r) == spec_parse_reload(value@),
        r matches Ok(c) ==> renderable(c.deep_view()) && is_runtime_cmd(c.deep_view()),
{
    let _ = as_bool(value)?;
    Ok(Runtime::Reload)
}

/// What decoding `kill` yields: any boolean marks the command.
pub open spec fn spec_parse_kill(v: TomlV) -> Result<CommandsV, ParseErrorV> {
    match v {
        TomlV::Bool(_) => Ok(CommandsV::Kill),
        _ => Err(ParseErrorV::IncorrectType(seq!["boolean"@])),
    }
}

fn parse_kill(value: &Toml) -> (r: ParseResult<Runtime>)
    ensures
        parse_view(r) == spec_parse_kill(value@),
        r matches Ok(c) ==> renderable(c.deep_view()) && is_runtime_cmd(c.deep_view()),
{
    let _ = as_bool(value)?;
    Ok(Runtime::Kill)
}

/// What decoding `floating` yields: a togglable boolean.
pub open spec fn spec_parse_floating(v: TomlV) -> Result<CommandsV, ParseErrorV> {
    match spec_parse_togglable_bool(v) {
        Ok(tb) => Ok(CommandsV::Floating(tb)),
        Err(e) => Err(e),
    }
}

fn parse_floating(value: &Toml) -> (r: ParseResult<Runtime>)
    ensures
        parse_view(r) == spec_parse_floating(value@),
        r matches Ok(c) ==> renderable(c.deep_view()) && is_runtime_cmd(c.deep_view()),
{
    let tb = parse_togglable_bool(value)?;
    Ok(Runtime::Floating(tb))
}

/// What decoding `split` yields: a split orientation token.
pub open spec fn spec_parse_split(v: TomlV) -> Result<CommandsV, ParseErrorV> {
    match v {
        TomlV::Str(s) => match spec_parse_splitopt(s) {
            Ok(sp) => Ok(CommandsV::Split(sp)),
            Err(e) => Err(e),
        },
        _ => Err(ParseErrorV::IncorrectType(seq!["string"@])),
    }
}

fn parse_split(value: &Toml) -> (r: ParseResult<Runtime>)
    ensures
        parse_view(r) == spec_parse_split(value@),
        r matches Ok(c) ==> renderable(c.deep_view()) && is_runtime_cmd(c.deep_view()),
{
    let s = as_str(value)?;
    let sp = parse_splitopt(s)?;
    Ok(Runtime::Split(sp))
}

/// What decoding a `focus` table yields: exactly one of `directional`,
/// `sibling`, `hierarchy` or `output`, each decoded by its own shape.
pub open spec fn spec_parse_focus(v: TomlV) -> Result<CommandsV, ParseErrorV> {
    match v {
        TomlV::Table(t) => {
            let cands = seq!["directional"@, "sibling"@, "hierarchy"@, "output"@];
            let found = spec_found_keys(t, cands);
            if found.len() == 0 {
                Err(ParseErrorV::KeyNotFound(join_with(cands, ", "@)))
            } else if found.len() == 1 {
                let k = found[0];
                match tbl_get(t, k) {
                    Option::None => Err(ParseErrorV::KeyNotFound(k)),
                    Option::Some(sub) => {
                        if k == "directional"@ {
                            match sub {
                                TomlV::Str(s) => match spec_parse_directional(s) {
                                    Ok(d) => Ok(CommandsV::Focus(SubFocusV::Directional(d))),
                                    Err(e) => Err(e),
                                },
                                _ => Err(ParseErrorV::IncorrectType(seq!["string"@])),
                            }
                        } else if k == "sibling"@ {
                            match sub {
                                TomlV::Str(s) => match spec_parse_sibling(s) {
                                    Ok(d) => Ok(CommandsV::Focus(SubFocusV::Sibling(d))),
                                    Err(e) => Err(e),
                                },
                                _ => Err(ParseErrorV::IncorrectType(seq!["string"@])),
                            }
                        } else if k == "hierarchy"@ {
                            match sub {
                                TomlV::Str(s) => match spec_parse_hierarchy(s) {
                                    Ok(d) => Ok(CommandsV::Focus(SubFocusV::Hierarchy(d))),
                                    Err(e) => Err(e),
                                },
                                _ => Err(ParseErrorV::IncorrectType(seq!["string"@])),
                            }
                        } else {
                            spec_parse_focus_output(sub)
                        }
                    },
                }
            } else {
                Err(ParseErrorV::MultiKey(found))
            }
        },
        _ => Err(ParseErrorV::IncorrectType(seq!["table"@])),
    }
}

/// What decoding the `output` argument of `focus` yields: an output name, or
/// a table choosing between `directional` and `named`.
pub open spec fn spec_parse_focus_output(v: TomlV) -> Result<CommandsV, ParseErrorV> {
    match v {
        TomlV::Str(name) => Ok(CommandsV::Focus(SubFocusV::OutputNamed(name))),
        TomlV::Table(t) => {
            let cands = seq!["directional"@, "named"@];
            let found = spec_found_keys(t, cands);
            if found.len() == 0 {
                Err(ParseErrorV::KeyNotFound(join_with(cands, ", "@)))
            } else if found.len() == 1 {
                let k = found[0];
                match tbl_get(t, k) {
                    Option::None => Err(ParseErrorV::KeyNotFound(k)),
                    Option::Some(sub) => {
                        if k == "directional"@ {
                            match sub {
                                TomlV::Str(s) => match spec_parse_directional(s) {
                                    Ok(d) => Ok(
                                        CommandsV::Focus(SubFocusV::OutputDirectional(d)),
                                    ),
                                    Err(e) => Err(e),
                                },
                                _ => Err(ParseErrorV::IncorrectType(seq!["string"@])),
                            }
                        } else {
                            match sub {
                                TomlV::Str(s) => Ok(CommandsV::Focus(SubFocusV::OutputNamed(s))),
                                _ => Err(ParseErrorV::IncorrectType(seq!["string"@])),
                            }
                        }
                    },
                }
            } else {
                Err(ParseErrorV::MultiKey(found))
            }
        },
        _ => Err(ParseErrorV::IncorrectType(seq!["string"@, "table"@])),
    }
}

fn parse_focus_output(value: &Toml) -> (r: ParseResult<Runtime>)
    ensures
        parse_view(r) == spec_parse_focus_output(value@),
        r matches Ok(c) ==> renderable(c.deep_view()) && is_runtime_cmd(c.deep_view()),
{
    match value {
        Toml::Str(name) => Ok(Runtime::Focus(SubFocus::OutputNamed(name.clone()))),
        Toml::Table(t) => {
            let cands: Vec<&str> = vec!["directional", "named"];
            proof {
                assert(cands.deep_view() =~= seq!["directional"@, "named"@]);
            }
            let (k, sub) = match one_of(t, &cands) {
                Ok(kv) => kv,
                Err(e) => {
                    return Err(e);
                },
            };
            if str_eq(k.as_str(), "directional") {
                let s = as_str(sub)?;
                let d = parse_directional(s)?;
                Ok(Runtime::Focus(SubFocus::OutputDirectional(d)))
            } else {
                let s = as_str(sub)?;
                Ok(Runtime::Focus(SubFocus::OutputNamed(s.clone())))
            }
        },
        _ => {
            let ts = to_string_vec(vec!["string", "table"]);
            proof {
                assert(ts.deep_view() =~= seq!["string"@, "table"@]);
            }
            Err(ParseError::IncorrectType(ts))
        },
    }
}

fn parse_focus(value: &Toml) -> (r: ParseResult<Runtime>)
    ensures
        parse_view(r) == spec_parse_focus(value@),
        r matches Ok(c) ==> renderable(c.deep_view()) && is_runtime_cmd(c.deep_view()),
{
    let t = as_table(value)?;
    let cands: Vec<&str> = vec!["directional", "sibling", "hierarchy", "output"];
    proof {
        assert(cands.deep_view() =~= seq!["directional"@, "sibling"@, "hierarchy"@, "output"@]);
    }
    let (k, sub) = match one_of(t, &cands) {
        Ok(kv) => kv,
        Err(e) => {
            return Err(e);
        },
    };
    if str_eq(k.as_str(), "directional") {
        let s = as_str(sub)?;
        let d = parse_directional(s)?;
        Ok(Runtime::Focus(SubFocus::Directional(d)))
    } else if str_eq(k.as_str(), "sibling") {
        let s = as_str(sub)?;
        let d = parse_sibling(s)?;
        Ok(Runtime::Focus(SubFocus::Sibling(d)))
    } else if str_eq(k.as_str(), "hierarchy") {
        let s = as_str(sub)?;
        let d = parse_hierarchy(s)?;
        Ok(Runtime::Focus(SubFocus::Hierarchy(d)))
    } else {
        parse_focus_output(sub)
    }
}

/// What decoding a `layout` table yields: exactly one of `set` (a fixed
/// layout name) or `cycle` (one cycle token, or a non-empty list of layouts).
pub open spec fn spec_parse_layout(v: TomlV) -> Result<CommandsV, ParseErrorV> {
    match v {
        TomlV::Table(t) => {
            let cands = seq!["set"@, "cycle"@];
            let found = spec_found_keys(t, cands);
            if found.len() == 0 {
                Err(ParseErrorV::KeyNotFound(join_with(cands, ", "@)))
            } else if found.len() == 1 {
                let k = found[0];
                match tbl_get(t, k) {
                    Option::None => Err(ParseErrorV::KeyNotFound(k)),
                    Option::Some(sub) => {
                        if k == "set"@ {
                            match sub {
                                TomlV::Str(s) => match spec_parse_layoutopt(s) {
                                    Ok(l) => Ok(CommandsV::Layout(SubLayoutV::Fixed(l))),
                                    Err(e) => Err(e),
                                },
                                _ => Err(ParseErrorV::IncorrectType(seq!["string"@])),
                            }
                        } else {
                            spec_parse_layout_cycle(sub)
                        }
                    },
                }
            } else {
                Err(ParseErrorV::MultiKey(found))
            }
        },
        _ => Err(ParseErrorV::IncorrectType(seq!["table"@])),
    }
}

/// What decoding the elements of a layout cycle list yields, element by
/// element; every element must be a string naming a layout.
pub open spec fn spec_parse_cycle_list(items: Seq<TomlV>) -> Result<
    Seq<LayoutCycleMulti>,
    ParseErrorV,
>
    decreases items.len(),
{
    if items.len() == 0 {
        Ok(Seq::empty())
    } else {
        match items[0] {
            TomlV::Str(s) => match spec_parse_layoutcyclemulti(s) {
                Ok(l) => match spec_parse_cycle_list(items.drop_first()) {
                    Ok(rest) => Ok(seq![l] + rest),
                    Err(e) => Err(e),
                },
                Err(e) => Err(e),
            },
            _ => Err(ParseErrorV::IncorrectType(seq!["string"@])),
        }
    }
}

/// What decoding a `layout cycle` argument yields: one cycle token, or a
/// list of layouts, which must not be empty.
pub open spec fn spec_parse_layout_cycle(v: TomlV) -> Result<CommandsV, ParseErrorV> {
    match v {
        TomlV::Str(s) => match spec_parse_layoutcyclesingle(s) {
            Ok(c) => Ok(CommandsV::Layout(SubLayoutV::Cycle(c))),
            Err(e) => Err(e),
        },
        TomlV::Array(items) => match spec_parse_cycle_list(items) {
            Ok(ls) => {
                if ls.len() == 0 {
                    Err(ParseErrorV::IncorrectType(seq!["non-empty array"@]))
                } else {
                    Ok(CommandsV::Layout(SubLayoutV::CycleList(ls)))
                }
            },
            Err(e) => Err(e),
        },
        _ => Err(ParseErrorV::IncorrectType(seq!["string"@, "array"@])),
    }
}

fn parse_layout_cycle(value: &Toml) -> (r: ParseResult<Runtime>)
    ensures
        parse_view(r) == spec_parse_layout_cycle(value@),
        r matches Ok(c) ==> renderable(c.deep_view()) && is_runtime_cmd(c.deep_view()),
{
    match value {
        Toml::Str(s) => {
            let c = parse_layoutcyclesingle(s)?;
            Ok(Runtime::Layout(SubLayout::Cycle(c)))
        },
        Toml::Array(items) => {
            let mut ls: Vec<LayoutCycleMulti> = Vec::new();
            let mut i: usize = 0;
            proof {
                crate::tomlcfg::base::lemma_toml_arr_v(items@);
                assert(ls.deep_view() =~= Seq::<LayoutCycleMulti>::empty());
                let arr = (value@)->Array_0;
                assert(arr.skip(0) =~= arr);
                match spec_parse_cycle_list(arr) {
                    Ok(rest) => {
                        assert(ls.deep_view() + rest =~= rest);
                    },
                    Err(_) => {},
                }
            }
            while i < items.len()
                invariant
                    0 <= i <= items.len(),
                    value@ is Array,
                    items@.len() == (value@)->Array_0.len(),
                    forall|j: int|
                        0 <= j < items@.len() ==> (value@)->Array_0[j] == crate::tomlcfg::base::toml_v(
                            #[trigger] items@[j],
                        ),
                    spec_parse_cycle_list((value@)->Array_0) == (match spec_parse_cycle_list(
                        (value@)->Array_0.skip(i as int),
                    ) {
                        Ok(rest) => Ok(ls.deep_view() + rest),
                        Err(e) => Err::<Seq<LayoutCycleMulti>, ParseErrorV>(e),
                    }),
                decreases items.len() - i,
            {
                proof {
                    assert((value@)->Array_0.skip(i as int)[0] == (value@)->Array_0[i as int]);
                    assert((value@)->Array_0.skip(i as int).drop_first() =~= (
                    value@)->Array_0.skip(i + 1));
                }
                let s = as_str(&items[i])?;
                let l = parse_layoutcyclemulti(s)?;
                let ghost old_dv = ls.deep_view();
                ls.push(l);
                proof {
                    assert(ls.deep_view() =~= old_dv.push(l));
                    assert(forall|rest: Seq<LayoutCycleMulti>|
                        old_dv + (seq![l] + rest) =~= #[trigger] (old_dv.push(l) + rest));
                }
                i = i + 1;
            }
            proof {
                assert((value@)->Array_0.skip(items.len() as int)
                    =~= Seq::<TomlV>::empty());
                assert(ls.deep_view() + Seq::<LayoutCycleMulti>::empty() =~= ls.deep_view());
            }
            if ls.len() == 0 {
                let ts = to_string_vec(vec!["non-empty array"]);
                proof {
                    assert(ts.deep_view() =~= seq!["non-empty array"@]);
                }
                Err(ParseError::IncorrectType(ts))
            } else {
                Ok(Runtime::Layout(SubLayout::CycleList(ls)))
            }
        },
        _ => {
            let ts = to_string_vec(vec!["string", "array"]);
            proof {
                assert(ts.deep_view() =~= seq!["string"@, "array"@]);
            }
            Err(ParseError::IncorrectType(ts))
        },
    }
}

fn parse_layout(value: &Toml) -> (r: ParseResult<Runtime>)
    ensures
        parse_view(r) == spec_parse_layout(value@),
        r matches Ok(c) ==> renderable(c.deep_view()) && is_runtime_cmd(c.deep_view()),
{
    let t = as_table(value)?;
    let cands: Vec<&str> = vec!["set", "cycle"];
    proof {
        assert(cands.deep_view() =~= seq!["set"@, "cycle"@]);
    }
    let (k, sub) = match one_of(t, &cands) {
        Ok(kv) => kv,
        Err(e) => {
            return Err(e);
        },
    };
    if str_eq(k.as_str(), "set") {
        let s = as_str(sub)?;
        let l = parse_layoutopt(s)?;
        Ok(Runtime::Layout(SubLayout::Fixed(l)))
    } else {
        parse_layout_cycle(sub)
    }
}

/// What decoding a `move` table yields: exactly one of `directional`,
/// `coordinates`, `center`, `cursor`, `workspace` or `output`.
pub open spec fn spec_parse_move(v: TomlV) -> Result<CommandsV, ParseErrorV> {
    match v {
        TomlV::Table(t) => {
            let cands = seq![
                "directional"@,
                "coordinates"@,
                "center"@,
                "cursor"@,
                "workspace"@,
                "output"@,
            ];
            let found = spec_found_keys(t, cands);
            if found.len() == 0 {
                Err(ParseErrorV::KeyNotFound(join_with(cands, ", "@)))
            } else if found.len() == 1 {
                let k = found[0];
                match tbl_get(t, k) {
                    Option::None => Err(ParseErrorV::KeyNotFound(k)),
                    Option::Some(sub) => {
                        if k == "directional"@ {
                            match sub {
                                TomlV::Str(s) => match spec_parse_directional(s) {
                                    Ok(d) => Ok(
                                        CommandsV::Move(
                                            SubMoveV::Directional {
                                                direction: d,
                                                px: Option::None,
                                            },
                                        ),
                                    ),
                                    Err(e) => Err(e),
                                },
                                _ => Err(ParseErrorV::IncorrectType(seq!["string"@])),
                            }
                        } else if k == "coordinates"@ {
                            spec_parse_move_coords(sub)
                        } else if k == "center"@ {
                            spec_parse_move_center(sub)
                        } else if k == "cursor"@ {
                            match sub {
                                TomlV::Bool(_) => Ok(CommandsV::Move(SubMoveV::ToCursor)),
                                _ => Err(ParseErrorV::IncorrectType(seq!["boolean"@])),
                            }
                        } else if k == "workspace"@ {
                            spec_parse_move_workspace(sub)
                        } else {
                            spec_parse_move_output(sub)
                        }
                    },
                }
            } else {
                Err(ParseErrorV::MultiKey(found))
            }
        },
        _ => Err(ParseErrorV::IncorrectType(seq!["table"@])),
    }
}

/// What decoding a `move` coordinate table yields: `x`, `y` and `absolute`
/// are required; units are fixed to pixels.
pub open spec fn spec_parse_move_coords(v: TomlV) -> Result<CommandsV, ParseErrorV> {
    match v {
        TomlV::Table(t) => match tbl_get(t, "x"@) {
            Option::None => Err(ParseErrorV::KeyNotFound("x"@)),
            Option::Some(xv) => match xv {
                TomlV::Int(xi) => match tbl_get(t, "y"@) {
                    Option::None => Err(ParseErrorV::KeyNotFound("y"@)),
                    Option::Some(yv) => match yv {
                        TomlV::Int(yi) => match tbl_get(t, "absolute"@) {
                            Option::None => Err(ParseErrorV::KeyNotFound("absolute"@)),
                            Option::Some(av) => match av {
                                TomlV::Bool(a) => Ok(
                                    CommandsV::Move(
                                        SubMoveV::Coordinates {
                                            x: wrap_i8(xi as int) as i8,
                                            y: wrap_i8(yi as int) as i8,
                                            x_unit: Units::Px,
                                            y_unit: Units::Px,
                                            absolute: a,
                                        },
                                    ),
                                ),
                                _ => Err(ParseErrorV::IncorrectType(seq!["boolean"@])),
                            },
                        },
                        _ => Err(ParseErrorV::IncorrectType(seq!["integer"@])),
                    },
                },
                _ => Err(ParseErrorV::IncorrectType(seq!["integer"@])),
            },
        },
        _ => Err(ParseErrorV::IncorrectType(seq!["table"@])),
    }
}

fn parse_move_coords(value: &Toml) -> (r: ParseResult<Runtime>)
    ensures
        parse_view(r) == spec_parse_move_coords(value@),
        r matches Ok(c) ==> renderable(c.deep_view()) && is_runtime_cmd(c.deep_view()),
{
    let t = as_table(value)?;
    let xv = find(t, String::from_str("x"))?;
    let xi = as_integer(xv)?;
    let x = to_i8(&xi);
    let yv = find(t, String::from_str("y"))?;
    let yi = as_integer(yv)?;
    let y = to_i8(&yi);
    let av = find(t, String::from_str("absolute"))?;
    let absolute = as_bool(av)?;
    Ok(
        Runtime::Move(
            SubMove::Coordinates { x, y, x_unit: Units::Px, y_unit: Units::Px, absolute },
        ),
    )
}

/// What decoding a `move center` argument yields: a bare boolean, or a table
/// whose `absolute` boolean is required.
pub open spec fn spec_parse_move_center(v: TomlV) -> Result<CommandsV, ParseErrorV> {
    match v {
        TomlV::Bool(a) => Ok(CommandsV::Move(SubMoveV::Center { absolute: a })),
        TomlV::Table(t) => match tbl_get(t, "absolute"@) {
            Option::None => Err(ParseErrorV::KeyNotFound("absolute"@)),
            Option::Some(av) => match av {
                TomlV::Bool(a) => Ok(CommandsV::Move(SubMoveV::Center { absolute: a })),
                _ => Err(ParseErrorV::IncorrectType(seq!["boolean"@])),
            },
        },
        _ => Err(ParseErrorV::IncorrectType(seq!["boolean"@, "table"@])),
    }
}

fn parse_move_center(value: &Toml) -> (r: ParseResult<Runtime>)
    ensures
        parse_view(r) == spec_parse_move_center(value@),
        r matches Ok(c) ==> renderable(c.deep_view()) && is_runtime_cmd(c.deep_view()),
{
    match value {
        Toml::Bool(a) => Ok(Runtime::Move(SubMove::Center { absolute: *a })),
        Toml::Table(t) => {
            let av = find(t, String::from_str("absolute"))?;
            let absolute = as_bool(av)?;
            Ok(Runtime::Move(SubMove::Center { absolute }))
        },
        _ => {
            let ts = to_string_vec(vec!["boolean", "table"]);
            proof {
                assert(ts.deep_view() =~= seq!["boolean"@, "table"@]);
            }
            Err(ParseError::IncorrectType(ts))
        },
    }
}

/// What decoding a `move workspace` argument yields: a relative-workspace
/// token, or a table choosing between `output` and `back-and-forth`.
pub open spec fn spec_parse_move_workspace(v: TomlV) -> Result<CommandsV, ParseErrorV> {
    match v {
        TomlV::Table(t) => {
            let cands = seq!["output"@, "back-and-forth"@];
            let found = spec_found_keys(t, cands);
            if found.len() == 0 {
                Err(ParseErrorV::KeyNotFound(join_with(cands, ", "@)))
            } else if found.len() == 1 {
                let k = found[0];
                match tbl_get(t, k) {
                    Option::None => Err(ParseErrorV::KeyNotFound(k)),
                    Option::Some(sub) => {
                        if k == "output"@ {
                            match sub {
                                TomlV::Str(s) => {
                                    if s == "prev"@ || s == "previous"@ {
                                        Ok(
                                            CommandsV::Move(
                                                SubMoveV::ToWorkspaceOnOutput(FocusSibling::Prev),
                                            ),
                                        )
                                    } else if s == "next"@ {
                                        Ok(
                                            CommandsV::Move(
                                                SubMoveV::ToWorkspaceOnOutput(FocusSibling::Next),
                                            ),
                                        )
                                    } else {
                                        Err(
                                            ParseErrorV::StringMismatch(
                                                seq!["prev"@, "next"@],
                                                s,
                                            ),
                                        )
                                    }
                                },
                                _ => Err(ParseErrorV::IncorrectType(seq!["string"@])),
                            }
                        } else {
                            match sub {
                                TomlV::Bool(_) => Ok(CommandsV::Move(SubMoveV::BackAndForth)),
                                _ => Err(ParseErrorV::IncorrectType(seq!["boolean"@])),
                            }
                        }
                    },
                }
            } else {
                Err(ParseErrorV::MultiKey(found))
            }
        },
        TomlV::Str(s) => {
            if s == "prev"@ || s == "previous"@ {
                Ok(CommandsV::Move(SubMoveV::ToWorkspace(RelWorkspace::Prev)))
            } else if s == "next"@ {
                Ok(CommandsV::Move(SubMoveV::ToWorkspace(RelWorkspace::Next)))
            } else if s == "current"@ {
                Ok(CommandsV::Move(SubMoveV::ToWorkspace(RelWorkspace::Current)))
            } else if s == "back-and-forth"@ {
                Ok(CommandsV::Move(SubMoveV::BackAndForth))
            } else {
                Err(ParseErrorV::StringMismatch(seq!["back-and-forth"@], s))
            }
        },
        _ => Err(ParseErrorV::IncorrectType(seq!["table"@, "string"@])),
    }
}

fn parse_move_workspace(value: &Toml) -> (r: ParseResult<Runtime>)
    ensures
        parse_view(r) == spec_parse_move_workspace(value@),
        r matches Ok(c) ==> renderable(c.deep_view()) && is_runtime_cmd(c.deep_view()),
{
    match value {
        Toml::Table(t) => {
            let cands: Vec<&str> = vec!["output", "back-and-forth"];
            proof {
                assert(cands.deep_view() =~= seq!["output"@, "back-and-forth"@]);
            }
            let (k, sub) = match one_of(t, &cands) {
                Ok(kv) => kv,
                Err(e) => {
                    return Err(e);
                },
            };
            if str_eq(k.as_str(), "output") {
                let s = as_str(sub)?;
                if str_eq(s.as_str(), "prev") || str_eq(s.as_str(), "previous") {
                    Ok(Runtime::Move(SubMove::ToWorkspaceOnOutput(FocusSibling::Prev)))
                } else if str_eq(s.as_str(), "next") {
                    Ok(Runtime::Move(SubMove::ToWorkspaceOnOutput(FocusSibling::Next)))
                } else {
                    let ts = to_string_vec(vec!["prev", "next"]);
                    proof {
                        assert(ts.deep_view() =~= seq!["prev"@, "next"@]);
                    }
                    Err(ParseError::StringMismatch(ts, s.clone()))
                }
            } else {
                let _ = as_bool(sub)?;
                Ok(Runtime::Move(SubMove::BackAndForth))
            }
        },
        Toml::Str(s) => {
            if str_eq(s.as_str(), "prev") || str_eq(s.as_str(), "previous") {
                Ok(Runtime::Move(SubMove::ToWorkspace(RelWorkspace::Prev)))
            } else if str_eq(s.as_str(), "next") {
                Ok(Runtime::Move(SubMove::ToWorkspace(RelWorkspace::Next)))
            } else if str_eq(s.as_str(), "current") {
                Ok(Runtime::Move(SubMove::ToWorkspace(RelWorkspace::Current)))
            } else if str_eq(s.as_str(), "back-and-forth") {
                Ok(Runtime::Move(SubMove::BackAndForth))
            } else {
                let ts = to_string_vec(vec!["back-and-forth"]);
                proof {
                    assert(ts.deep_view() =~= seq!["back-and-forth"@]);
                }
                Err(ParseError::StringMismatch(ts, s.clone()))
            }
        },
        _ => {
            let ts = to_string_vec(vec!["table", "string"]);
            proof {
                assert(ts.deep_view() =~= seq!["table"@, "string"@]);
            }
            Err(ParseError::IncorrectType(ts))
        },
    }
}

/// What decoding a `move output` argument yields: an output name, or a table
/// choosing between `directional` and `named`.
pub open spec fn spec_parse_move_output(v: TomlV) -> Result<CommandsV, ParseErrorV> {
    match v {
        TomlV::Str(name) => Ok(CommandsV::Move(SubMoveV::ToNamedOutput(name))),
        TomlV::Table(t) => {
            let cands = seq!["directional"@, "named"@];
            let found = spec_found_keys(t, cands);
            if found.len() == 0 {
                Err(ParseErrorV::KeyNotFound(join_with(cands, ", "@)))
            } else if found.len() == 1 {
                let k = found[0];
                match tbl_get(t, k) {
                    Option::None => Err(ParseErrorV::KeyNotFound(k)),
                    Option::Some(sub) => {
                        if k == "directional"@ {
                            match sub {
                                TomlV::Str(s) => match spec_parse_directional(s) {
                                    Ok(d) => Ok(
                                        CommandsV::Move(SubMoveV::ToDirectionalOutput(d)),
                                    ),
                                    Err(e) => Err(e),
                                },
                                _ => Err(ParseErrorV::IncorrectType(seq!["string"@])),
                            }
                        } else {
                            match sub {
                                TomlV::Str(s) => Ok(CommandsV::Move(SubMoveV::ToNamedOutput(s))),
                                _ => Err(ParseErrorV::IncorrectType(seq!["string"@])),
                            }
                        }
                    },
                }
            } else {
                Err(ParseErrorV::MultiKey(found))
            }
        },
        _ => Err(ParseErrorV::IncorrectType(seq!["string"@, "table"@])),
    }
}

fn parse_move_output(value: &Toml) -> (r: ParseResult<Runtime>)
    ensures
        parse_view(r) == spec_parse_move_output(value@),
        r matches Ok(c) ==> renderable(c.deep_view()) && is_runtime_cmd(c.deep_view()),
{
    match value {
        Toml::Str(name) => Ok(Runtime::Move(SubMove::ToNamedOutput(name.clone()))),
        Toml::Table(t) => {
            let cands: Vec<&str> = vec!["directional", "named"];
            proof {
                assert(cands.deep_view() =~= seq!["directional"@, "named"@]);
            }
            let (k, sub) = match one_of(t, &cands) {
                Ok(kv) => kv,
                Err(e) => {
                    return Err(e);
                },
            };
            if str_eq(k.as_str(), "directional") {
                let s = as_str(sub)?;
                let d = parse_directional(s)?;
                Ok(Runtime::Move(SubMove::ToDirectionalOutput(d)))
            } else {
                let s = as_str(sub)?;
                Ok(Runtime::Move(SubMove::ToNamedOutput(s.clone())))
            }
        },
        _ => {
            let ts = to_string_vec(vec!["string", "table"]);
            proof {
                assert(ts.deep_view() =~= seq!["string"@, "table"@]);
            }
            Err(ParseError::IncorrectType(ts))
        },
    }
}

fn parse_move(value: &Toml) -> (r: ParseResult<Runtime>)
    ensures
        parse_view(r) == spec_parse_move(value@),
        r matches Ok(c) ==> renderable(c.deep_view()) && is_runtime_cmd(c.deep_view()),
{
    let t = as_table(value)?;
    let cands: Vec<&str> = vec![
        "directional",
        "coordinates",
        "center",
        "cursor",
        "workspace",
        "output",
    ];
    proof {
        assert(cands.deep_view() =~= seq![
            "directional"@,
            "coordinates"@,
            "center"@,
            "cursor"@,
            "workspace"@,
            "output"@,
        ]);
    }
    let (k, sub) = match one_of(t, &cands) {
        Ok(kv) => kv,
        Err(e) => {
            return Err(e);
        },
    };
    if str_eq(k.as_str(), "directional") {
        let s = as_str(sub)?;
        let d = parse_directional(s)?;
        Ok(Runtime::Move(SubMove::Directional { direction: d, px: Option::None }))
    } else if str_eq(k.as_str(), "coordinates") {
        parse_move_coords(sub)
    } else if str_eq(k.as_str(), "center") {
        parse_move_center(sub)
    } else if str_eq(k.as_str(), "cursor") {
        let _ = as_bool(sub)?;
        Ok(Runtime::Move(SubMove::ToCursor))
    } else if str_eq(k.as_str(), "workspace") {
        parse_move_workspace(sub)
    } else {
        parse_move_output(sub)
    }
}

/// The optional integer under `key`: absent is `None`; a present non-integer
/// node is rejected by shape.
pub open spec fn spec_opt_int(t: Seq<(Seq<char>, TomlV)>, key: Seq<char>) -> Result<
    Option<i64>,
    ParseErrorV,
> {
    match tbl_get(t, key) {
        Option::None => Ok(Option::None),
        Option::Some(v) => match v {
            TomlV::Int(i) => Ok(Option::Some(i)),
            _ => Err(ParseErrorV::IncorrectType(seq!["integer"@])),
        },
    }
}

fn opt_int(t: &Table, key: &str) -> (r: ParseResult<Option<i64>>)
    ensures
        parse_view(r) == spec_opt_int(t@, key@),
{
    match find_opt(t, String::from_str(key)) {
        Option::Some(v) => match v {
            Toml::Int(i) => Ok(Option::Some(*i)),
            _ => {
                let ts = to_string_vec(vec!["integer"]);
                proof {
                    assert(ts.deep_view() =~= seq!["integer"@]);
                }
                Err(ParseError::IncorrectType(ts))
            },
        },
        Option::None => Ok(Option::None),
    }
}

/// What decoding a `resize` table yields: a required `change` direction, an
/// optional magnitude on each axis (of which exactly one must be present),
/// and the unit named by the table's `px`/`ppt` flags.
pub open spec fn spec_parse_resize(v: TomlV) -> Result<CommandsV, ParseErrorV> {
    match v {
        TomlV::Table(t) => match tbl_get(t, "change"@) {
            Option::None => Err(ParseErrorV::KeyNotFound("change"@)),
            Option::Some(cv) => match cv {
                TomlV::Str(cs) => match spec_parse_size(cs) {
                    Err(e) => Err(e),
                    Ok(change) => match spec_opt_int(t, "x"@) {
                        Err(e) => Err(e),
                        Ok(xo) => match spec_opt_int(t, "y"@) {
                            Err(e) => Err(e),
                            Ok(yo) => match spec_parse_units(v) {
                                Err(e) => Err(e),
                                Ok(unit) => {
                                    if (xo is Some) == (yo is Some) {
                                        Err(ParseErrorV::ConflictDiff("x"@, "y"@))
                                    } else {
                                        Ok(
                                            CommandsV::Resize {
                                                change,
                                                x: match xo {
                                                    Option::Some(xi) => Option::Some(
                                                        wrap_u8(xi as int) as u8,
                                                    ),
                                                    Option::None => Option::None,
                                                },
                                                y: match yo {
                                                    Option::Some(yi) => Option::Some(
                                                        wrap_u8(yi as int) as u8,
                                                    ),
                                                    Option::None => Option::None,
                                                },
                                                unit,
                                            },
                                        )
                                    }
                                },
                            },
                        },
                    },
                },
                _ => Err(ParseErrorV::IncorrectType(seq!["string"@])),
            },
        },
        _ => Err(ParseErrorV::IncorrectType(seq!["table"@])),
    }
}

fn parse_resize(value: &Toml) -> (r: ParseResult<Runtime>)
    ensures
        parse_view(r) == spec_parse_resize(value@),
        r matches Ok(c) ==> renderable(c.deep_view()) && is_runtime_cmd(c.deep_view()),
{
    let t = as_table(value)?;
    let cv = find(t, String::from_str("change"))?;
    let cs = as_str(cv)?;
    let change = parse_size(cs)?;
    let xo = opt_int(t, "x")?;
    let yo = opt_int(t, "y")?;
    let unit = parse_units(value)?;
    let x = to_u8_opt(xo.as_ref());
    let y = to_u8_opt(yo.as_ref());
    if x.is_some() == y.is_some() {
        Err(ParseError::ConflictDiff(String::from_str("x"), String::from_str("y")))
    } else {
        Ok(Runtime::Resize { change, x, y, unit })
    }
}

/// What decoding an `exec` or `exec-always` table yields: the required
/// `command` string, with `--no-startup-id ` put before it when the optional
/// `no-startup-id` flag is on.
pub open spec fn spec_exec_command(v: TomlV) -> Result<Seq<char>, ParseErrorV> {
    match v {
        TomlV::Table(t) => match tbl_get(t, "command"@) {
            Option::None => Err(ParseErrorV::KeyNotFound("command"@)),
            Option::Some(cv) => match cv {
                TomlV::Str(command) => match spec_opt_bool(t, "no-startup-id"@, false) {
                    Err(e) => Err(e),
                    Ok(nsid) => {
                        if nsid {
                            Ok("--no-startup-id "@ + command)
                        } else {
                            Ok(command)
                        }
                    },
                },
                _ => Err(ParseErrorV::IncorrectType(seq!["string"@])),
            },
        },
        _ => Err(ParseErrorV::IncorrectType(seq!["table"@])),
    }
}

/// Decodes the command string of an `exec` or `exec-always` table.
pub(crate) fn exec_command(value: &Toml) -> (r: ParseResult<String>)
    ensures
        match r {
            Ok(s) => spec_exec_command(value@) == Ok::<Seq<char>, ParseErrorV>(s@),
            Err(e) => spec_exec_command(value@) == Err::<Seq<char>, ParseErrorV>(e@),
        },
{
    let t = as_table(value)?;
    let cv = find(t, String::from_str("command"))?;
    let command = as_str(cv)?;
    let nsid = opt_bool(t, "no-startup-id", false)?;
    if nsid {
        let mut acc = String::from_str("--no-startup-id ");
        acc.append(command.as_str());
        Ok(acc)
    } else {
        Ok(command.clone())
    }
}

/// What decoding `exec` yields.
pub open spec fn spec_parse_exec(v: TomlV) -> Result<CommandsV, ParseErrorV> {
    match spec_exec_command(v) {
        Ok(c) => Ok(CommandsV::Exec(c)),
        Err(e) => Err(e),
    }
}

fn parse_exec(value: &Toml) -> (r: ParseResult<Runtime>)
    ensures
        parse_view(r) == spec_parse_exec(value@),
        r matches Ok(c) ==> renderable(c.deep_view()) && is_runtime_cmd(c.deep_view()),
{
    let c = exec_command(value)?;
    Ok(Runtime::Exec(c))
}

/// What decoding `exec-always` yields.
pub open spec fn spec_parse_exec_always(v: TomlV) -> Result<CommandsV, ParseErrorV> {
    match spec_exec_command(v) {
        Ok(c) => Ok(CommandsV::ExecAlways(c)),
        Err(e) => Err(e),
    }
}

fn parse_exec_always(value: &Toml) -> (r: ParseResult<Runtime>)
    ensures
        parse_view(r) == spec_parse_exec_always(value@),
        r matches Ok(c) ==> renderable(c.deep_view()) && is_runtime_cmd(c.deep_view()),
{
    let c = exec_command(value)?;
    Ok(Runtime::ExecAlways(c))
}

/// What decoding `set` yields: the required `name` and `value` strings.
pub open spec fn spec_parse_set(v: TomlV) -> Result<CommandsV, ParseErrorV> {
    match v {
        TomlV::Table(t) => match tbl_get(t, "name"@) {
            Option::None => Err(ParseErrorV::KeyNotFound("name"@)),
            Option::Some(nv) => match nv {
                TomlV::Str(name) => match tbl_get(t, "value"@) {
                    Option::None => Err(ParseErrorV::KeyNotFound("value"@)),
                    Option::Some(vv) => match vv {
                        TomlV::Str(val) => Ok(CommandsV::SetVar { name, value: val }),
                        _ => Err(ParseErrorV::IncorrectType(seq!["string"@])),
                    },
                },
                _ => Err(ParseErrorV::IncorrectType(seq!["string"@])),
            },
        },
        _ => Err(ParseErrorV::IncorrectType(seq!["table"@])),
    }
}

fn parse_set(value: &Toml) -> (r: ParseResult<Runtime>)
    ensures
        parse_view(r) == spec_parse_set(value@),
        r matches Ok(c) ==> renderable(c.deep_view()) && is_runtime_cmd(c.deep_view()),
{
    let t = as_table(value)?;
    let nv = find(t, String::from_str("name"))?;
    let name = as_str(nv)?;
    let vv = find(t, String::from_str("value"))?;
    let val = as_str(vv)?;
    Ok(Runtime::SetVar { name: name.clone(), value: val.clone() })
}

/// What decoding `workspace` yields: a bare number, or a table with the
/// required `number` and an optional `name`.
pub open spec fn spec_parse_workspace(v: TomlV) -> Result<CommandsV, ParseErrorV> {
    match v {
        TomlV::Int(n) => Ok(
            CommandsV::Workspace { number: wrap_u8(n as int) as u8, name: Option::None },
        ),
        TomlV::Table(t) => match tbl_get(t, "number"@) {
            Option::None => Err(ParseErrorV::KeyNotFound("number"@)),
            Option::Some(nv) => match nv {
                TomlV::Int(n) => match tbl_get(t, "name"@) {
                    Option::None => Ok(
                        CommandsV::Workspace {
                            number: wrap_u8(n as int) as u8,
                            name: Option::None,
                        },
                    ),
                    Option::Some(sv) => match sv {
                        TomlV::Str(s) => Ok(
                            CommandsV::Workspace {
                                number: wrap_u8(n as int) as u8,
                                name: Option::Some(s),
                            },
                        ),
                        _ => Err(ParseErrorV::IncorrectType(seq!["string"@])),
                    },
                },
                _ => Err(ParseErrorV::IncorrectType(seq!["integer"@])),
            },
        },
        _ => Err(ParseErrorV::IncorrectType(seq!["integer"@, "table"@])),
    }
}

fn parse_workspace(value: &Toml) -> (r: ParseResult<Runtime>)
    ensures
        parse_view(r) == spec_parse_workspace(value@),
        r matches Ok(c) ==> renderable(c.deep_view()) && is_runtime_cmd(c.deep_view()),
{
    match value {
        Toml::Int(n) => {
            let number = to_u8(n);
            Ok(Runtime::Workspace { number, name: Option::None })
        },
        Toml::Table(t) => {
            let nv = find(t, String::from_str("number"))?;
            let ni = as_integer(nv)?;
            let number = to_u8(&ni);
            match find_opt(t, String::from_str("name")) {
                Option::Some(sv) => {
                    let s = as_str(sv)?;
                    Ok(Runtime::Workspace { number, name: Option::Some(s.clone()) })
                },
                Option::None => Ok(Runtime::Workspace { number, name: Option::None }),
            }
        },
        _ => {
            let ts = to_string_vec(vec!["integer", "table"]);
            proof {
                assert(ts.deep_view() =~= seq!["integer"@, "table"@]);
            }
            Err(ParseError::IncorrectType(ts))
        },
    }
}

/// What decoding `bindsym` yields: the required `keys` combination split at
/// `+`, the required `command` table decoded recursively, and the flags named
/// in the table. A binding whose inner command is itself a key binding is
/// rejected.
pub open spec fn spec_parse_bindsym(v: TomlV) -> Result<CommandsV, ParseErrorV>
    decreases v,
{
    match v {
        TomlV::Table(t) => match tbl_get(t, "keys"@) {
            Option::None => Err(ParseErrorV::KeyNotFound("keys"@)),
            Option::Some(kv) => match kv {
                TomlV::Str(ks) => match tbl_get(t, "command"@) {
                    Option::None => Err(ParseErrorV::KeyNotFound("command"@)),
                    Option::Some(cv) => match cv {
                        TomlV::Table(ct) => {
                            proof {
                                lemma_tbl_get_decreases(t, "command"@);
                                assert(decreases_to!(v => v->Table_0));
                                assert(decreases_to!(cv => cv->Table_0));
                            }
                            match spec_parse_runtime(ct) {
                                Err(e) => Err(e),
                                Ok(inner) => {
                                    if inner is Bindsym {
                                        Err(ParseErrorV::ConflictKey("bindsym"@, "bindsym"@))
                                    } else {
                                        match spec_collect_bindsym_args(t) {
                                            Err(e) => Err(e),
                                            Ok(flags) => Ok(
                                                CommandsV::Bindsym {
                                                    flags,
                                                    keys: split_sep(ks, '+'),
                                                    command: Box::new(inner),
                                                },
                                            ),
                                        }
                                    }
                                },
                            }
                        },
                        _ => Err(ParseErrorV::IncorrectType(seq!["table"@])),
                    },
                },
                _ => Err(ParseErrorV::IncorrectType(seq!["string"@])),
            },
        },
        _ => Err(ParseErrorV::IncorrectType(seq!["table"@])),
    }
}

fn parse_bindsym(value: &Toml) -> (r: ParseResult<Runtime>)
    ensures
        parse_view(r) == spec_parse_bindsym(value@),
        r matches Ok(c) ==> renderable(c.deep_view()) && is_runtime_cmd(c.deep_view()),
    decreases *value,
{
    let t = as_table(value)?;
    let kv = find(t, String::from_str("keys"))?;
    let ks = as_str(kv)?;
    let keys = split_str(ks.as_str(), '+');
    let ct = table(t, String::from_str("command"))?;
    proof {
        let i = choose|i: int|
            0 <= i < t.0@.len() && #[trigger] t.0@[i].1 == Toml::Table(*ct);
        let tv: Toml = Toml::Table(*t);
        assert(decreases_to!(tv => tv->Table_0));
        assert(decreases_to!(*t => t.0));
        assert(decreases_to!(t.0 => t.0@));
        assert(decreases_to!(t.0@ => t.0@[i]));
        assert(decreases_to!(t.0@[i] => t.0@[i].1));
        let cv2: Toml = t.0@[i].1;
        assert(cv2 == Toml::Table(*ct));
        assert(decreases_to!(cv2 => cv2->Table_0));
    }
    let inner = parse_runtime(ct)?;
    match &inner {
        Runtime::Bindsym { .. } => Err(
            ParseError::ConflictKey(String::from_str("bindsym"), String::from_str("bindsym")),
        ),
        _ => {
            let flags = collect_bindsym_args(t)?;
            Ok(Runtime::Bindsym { flags, keys, command: Box::new(inner) })
        },
    }
}

/// What decoding a runtime command table yields: of the runtime discriminant
/// vocabulary the table must hold exactly one key; none at all is
/// `KeyNotFound` naming the vocabulary, and two or more is `MultiKey` naming
/// the keys found.
pub open spec fn spec_parse_runtime(t: Seq<(Seq<char>, TomlV)>) -> Result<CommandsV, ParseErrorV>
    decreases t,
{
    let found = spec_found_keys(t, runtime_cands());
    if found.len() == 0 {
        Err(ParseErrorV::KeyNotFound(join_with(runtime_cands(), ", "@)))
    } else if found.len() == 1 {
        let k = found[0];
        match tbl_get(t, k) {
            Option::None => Err(ParseErrorV::KeyNotFound(k)),
            Option::Some(v) => {
                if k == "exit"@ {
                    spec_parse_exit(v)
                } else if k == "floating"@ {
                    spec_parse_floating(v)
                } else if k == "focus"@ {
                    spec_parse_focus(v)
                } else if k == "layout"@ {
                    spec_parse_layout(v)
                } else if k == "move"@ {
                    spec_parse_move(v)
                } else if k == "reload"@ {
                    spec_parse_reload(v)
                } else if k == "resize"@ {
                    spec_parse_resize(v)
                } else if k == "split"@ {
                    spec_parse_split(v)
                } else if k == "bindsym"@ {
                    proof {
                        lemma_tbl_get_decreases(t, k);
                    }
                    spec_parse_bindsym(v)
                } else if k == "exec"@ {
                    spec_parse_exec(v)
                } else if k == "exec-always"@ {
                    spec_parse_exec_always(v)
                } else if k == "kill"@ {
                    spec_parse_kill(v)
                } else if k == "set"@ {
                    spec_parse_set(v)
                } else if k == "workspace"@ {
                    spec_parse_workspace(v)
                } else {
                    Err(ParseErrorV::NotImplemented)
                }
            },
        }
    } else {
        Err(ParseErrorV::MultiKey(found))
    }
}

/// Decodes a runtime command from a table holding exactly one discriminant
/// key of the runtime vocabulary.
pub fn parse_runtime(table: &Table) -> (r: ParseResult<Runtime>)
    ensures
        parse_view(r) == spec_parse_runtime(table@),
        r matches Ok(c) ==> renderable(c.deep_view()) && is_runtime_cmd(c.deep_view()),
    decreases *table,
{
    let cands: Vec<&str> = vec![
        "exit",
        "floating",
        "focus",
        "layout",
        "move",
        "reload",
        "resize",
        "split",
        "bindsym",
        "exec",
        "exec-always",
        "kill",
        "set",
        "workspace",
    ];
    proof {
        assert(cands.deep_view() =~= runtime_cands());
    }
    let (k, v) = match one_of(table, &cands) {
        Ok(kv) => kv,
        Err(e) => {
            return Err(e);
        },
    };
    if str_eq(k.as_str(), "exit") {
        parse_exit(v)
    } else if str_eq(k.as_str(), "floating") {
        parse_floating(v)
    } else if str_eq(k.as_str(), "focus") {
        parse_focus(v)
    } else if str_eq(k.as_str(), "layout") {
        parse_layout(v)
    } else if str_eq(k.as_str(), "move") {
        parse_move(v)
    } else if str_eq(k.as_str(), "reload") {
        parse_reload(v)
    } else if str_eq(k.as_str(), "resize") {
        parse_resize(v)
    } else if str_eq(k.as_str(), "split") {
        parse_split(v)
    } else if str_eq(k.as_str(), "bindsym") {
        proof {
            let i = choose|i: int|
                0 <= i < table.0@.len() && #[trigger] table.0@[i].1 == *v;
            assert(decreases_to!(*table => table.0));
            assert(decreases_to!(table.0 => table.0@));
            assert(decreases_to!(table.0@ => table.0@[i]));
            assert(decreases_to!(table.0@[i] => table.0@[i].1));
        }
        parse_bindsym(v)
    } else if str_eq(k.as_str(), "exec") {
        parse_exec(v)
    } else if str_eq(k.as_str(), "exec-always") {
        parse_exec_always(v)
    } else if str_eq(k.as_str(), "kill") {
        parse_kill(v)
    } else if str_eq(k.as_str(), "set") {
        parse_set(v)
    } else if str_eq(k.as_str(), "workspace") {
        parse_workspace(v)
    } else {
        Err(ParseError::NotImplemented)
    }
}


/// A table with two or more recognized runtime discriminant keys decodes to
/// the error `MultiKey`, naming exactly the keys found, in table order.
pub proof fn lemma_runtime_multi_key(t: Seq<(Seq<char>, TomlV)>)
    requires
        spec_found_keys(t, runtime_cands()).len() >= 2,
    ensures
        spec_parse_runtime(t) == Err::<CommandsV, ParseErrorV>(
            ParseErrorV::MultiKey(spec_found_keys(t, runtime_cands())),
        ),
{
}

/// A table with no recognized runtime discriminant key decodes to the error
/// `KeyNotFound`, naming the whole discriminant vocabulary.
pub proof fn lemma_runtime_key_not_found(t: Seq<(Seq<char>, TomlV)>)
    requires
        spec_found_keys(t, runtime_cands()).len() == 0,
    ensures
        spec_parse_runtime(t) == Err::<CommandsV, ParseErrorV>(
            ParseErrorV::KeyNotFound(join_with(runtime_cands(), ", "@)),
        ),
{
}

/// A key binding that decodes successfully never binds another key binding:
/// nested bindings are rejected at decode time.
pub proof fn lemma_bindsym_rejects_nested(v: TomlV)
    ensures
        spec_parse_bindsym(v) matches Ok(c) ==> c is Bindsym && !(*c->Bindsym_command
            is Bindsym),
{
}

/// A nested key binding is never renderable.
pub proof fn lemma_nested_bindsym_not_renderable(c: CommandsV)
    requires
        c is Bindsym,
        *c->Bindsym_command is Bindsym,
    ensures
        !crate::sway::commands::renderable(c),
{
}

/// A resize that decodes successfully names exactly one axis; a table where
/// both or neither axis is present decodes to the error `ConflictDiff`.
pub proof fn lemma_resize_exclusive(v: TomlV)
    ensures
        spec_parse_resize(v) matches Ok(c) ==> c is Resize && ((c->Resize_x is Some) != (
        c->Resize_y is Some)),
{
}


/// Decoding the canonical spelling of a relative workspace as the argument of
/// `move workspace` yields the move command back.
pub proof fn lemma_move_workspace_round_trip(w: RelWorkspace)
    ensures
        spec_parse_move_workspace(TomlV::Str(w.text())) == Ok::<CommandsV, ParseErrorV>(
            CommandsV::Move(SubMoveV::ToWorkspace(w)),
        ),
{
    reveal_strlit("prev");
    reveal_strlit("previous");
    reveal_strlit("next");
    reveal_strlit("current");
    reveal_strlit("back-and-forth");
    assert("prev"@.len() == 4);
    assert("previous"@.len() == 8);
    assert("next"@.len() == 4);
    assert("current"@.len() == 7);
    assert("back-and-forth"@.len() == 14);
    assert("prev"@[0] != "next"@[0]);
    assert("prev"@ != "next"@);
    assert(spec_parse_move_workspace(TomlV::Str(RelWorkspace::Prev.text())) == Ok::<
        CommandsV,
        ParseErrorV,
    >(CommandsV::Move(SubMoveV::ToWorkspace(RelWorkspace::Prev))));
    assert(spec_parse_move_workspace(TomlV::Str(RelWorkspace::Next.text())) == Ok::<
        CommandsV,
        ParseErrorV,
    >(CommandsV::Move(SubMoveV::ToWorkspace(RelWorkspace::Next))));
    assert(spec_parse_move_workspace(TomlV::Str(RelWorkspace::Current.text())) == Ok::<
        CommandsV,
        ParseErrorV,
    >(CommandsV::Move(SubMoveV::ToWorkspace(RelWorkspace::Current))));
}

} // verus!
