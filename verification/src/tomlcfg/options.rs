//! Decoders for the value domains: each takes a token or a small node and
//! yields the domain value, or the error that names the accepted tokens.
//! Decoding accepts the documented aliases; rendering always uses the
//! canonical spelling.
use crate::sway::options::{
    Bindsym, BindsymV, Directional, FocusSibling, Hierarchy, Size, Split, TogglableBool, Units,
};
use crate::sway::layout::{Layout, LayoutCycleMulti, LayoutCycleSingle};
use crate::text::str_eq;
use crate::tomlcfg::base::{find_opt, tbl_get, Table, Toml, TomlV};
use crate::tomlcfg::{parse_view, ParseError, ParseErrorV, ParseResult};
use vstd::prelude::*;

verus! {

/// Builds owned strings from the given tokens.
pub(crate) fn to_string_vec(v: Vec<&str>) -> (r: Vec<String>)
    ensures
        r.deep_view() == v.deep_view(),
{
    let mut r: Vec<String> = Vec::new();
    let mut i: usize = 0;
    proof {
        assert(r.deep_view() =~= v.deep_view().take(0));
    }
    while i < v.len()
        invariant
            0 <= i <= v.len(),
            v.deep_view().len() == v.len(),
            r.deep_view() == v.deep_view().take(i as int),
        decreases v.len() - i,
    {
        let ghost old_dv = r.deep_view();
        r.push(String::from_str(v[i]));
        proof {
            assert(r.deep_view() =~= old_dv.push(v@[i as int]@));
            assert(r.deep_view() =~= v.deep_view().take(i + 1));
        }
        i = i + 1;
    }
    proof {
        assert(v.deep_view().take(v.len() as int) =~= v.deep_view());
    }
    r
}

/// What decoding a togglable boolean yields: a boolean node as is; a string
/// node through the accepted spellings; anything else rejected by shape.
pub open spec fn spec_parse_togglable_bool(v: TomlV) -> Result<TogglableBool, ParseErrorV> {
    match v {
        TomlV::Str(s) => {
            if s == "yes"@ || s == "enable"@ || s == "true"@ {
                Ok(TogglableBool::Enable)
            } else if s == "no"@ || s == "disable"@ || s == "false"@ {
                Ok(TogglableBool::Disable)
            } else if s == "toggle"@ {
                Ok(TogglableBool::Toggle)
            } else {
                Err(ParseErrorV::StringMismatch(seq!["enable"@, "disable"@, "toggle"@], s))
            }
        },
        TomlV::Bool(b) => {
            if b {
                Ok(TogglableBool::Enable)
            } else {
                Ok(TogglableBool::Disable)
            }
        },
        _ => Err(ParseErrorV::IncorrectType(seq!["string"@, "boolean"@])),
    }
}

/// Decodes a togglable boolean from a string or boolean node.
pub fn parse_togglable_bool(value: &Toml) -> (r: ParseResult<TogglableBool>)
    ensures
        parse_view(r) == spec_parse_togglable_bool(value@),
{
    match value {
        Toml::Str(s) => {
            if str_eq(s.as_str(), "yes") || str_eq(s.as_str(), "enable") || str_eq(
                s.as_str(),
                "true",
            ) {
                Ok(TogglableBool::Enable)
            } else if str_eq(s.as_str(), "no") || str_eq(s.as_str(), "disable") || str_eq(
                s.as_str(),
                "false",
            ) {
                Ok(TogglableBool::Disable)
            } else if str_eq(s.as_str(), "toggle") {
                Ok(TogglableBool::Toggle)
            } else {
                let ts = to_string_vec(vec!["enable", "disable", "toggle"]);
                proof {
                    assert(ts.deep_view() =~= seq!["enable"@, "disable"@, "toggle"@]);
                }
                Err(ParseError::StringMismatch(ts, s.clone()))
            }
        },
        Toml::Bool(b) => {
            if *b {
                Ok(TogglableBool::Enable)
            } else {
                Ok(TogglableBool::Disable)
            }
        },
        _ => {
            let ts = to_string_vec(vec!["string", "boolean"]);
            proof {
                assert(ts.deep_view() =~= seq!["string"@, "boolean"@]);
            }
            Err(ParseError::IncorrectType(ts))
        },
    }
}

/// What decoding a resize direction yields.
pub open spec fn spec_parse_size(s: Seq<char>) -> Result<Size, ParseErrorV> {
    if s == "grow"@ {
        Ok(Size::Grow)
    } else if s == "shrink"@ {
        Ok(Size::Shrink)
    } else {
        Err(ParseErrorV::StringMismatch(seq!["grow"@, "shrink"@], s))
    }
}

/// Decodes `grow` or `shrink`.
pub fn parse_size(value: &String) -> (r: ParseResult<Size>)
    ensures
        parse_view(r) == spec_parse_size(value@),
{
    if str_eq(value.as_str(), "grow") {
        Ok(Size::Grow)
    } else if str_eq(value.as_str(), "shrink") {
        Ok(Size::Shrink)
    } else {
        let ts = to_string_vec(vec!["grow", "shrink"]);
        proof {
            assert(ts.deep_view() =~= seq!["grow"@, "shrink"@]);
        }
        Err(ParseError::StringMismatch(ts, value.clone()))
    }
}

/// The boolean under `key`, or `default` when the key is absent; a present
/// non-boolean node is rejected by shape.
pub open spec fn spec_opt_bool(t: Seq<(Seq<char>, TomlV)>, key: Seq<char>, default: bool) -> Result<
    bool,
    ParseErrorV,
> {
    match tbl_get(t, key) {
        Option::None => Ok(default),
        Option::Some(v) => match v {
            TomlV::Bool(b) => Ok(b),
            _ => Err(ParseErrorV::IncorrectType(seq!["boolean"@])),
        },
    }
}

/// What decoding a unit table yields: of the `px` and `ppt` flags exactly one
/// must hold (`px` defaults to off, `ppt` to on); agreement is the error
/// `ConflictDiff`.
pub open spec fn spec_parse_units(v: TomlV) -> Result<Units, ParseErrorV> {
    match v {
        TomlV::Table(t) => match spec_opt_bool(t, "px"@, false) {
            Err(e) => Err(e),
            Ok(px) => match spec_opt_bool(t, "ppt"@, true) {
                Err(e) => Err(e),
                Ok(ppt) => {
                    if px == ppt {
                        Err(ParseErrorV::ConflictDiff("px"@, "ppt"@))
                    } else if px {
                        Ok(Units::Px)
                    } else {
                        Ok(Units::Ppt)
                    }
                },
            },
        },
        _ => Err(ParseErrorV::IncorrectType(seq!["table"@])),
    }
}

/// The boolean under `key`, or `default` when the key is absent.
pub(crate) fn opt_bool(t: &Table, key: &str, default: bool) -> (r: ParseResult<bool>)
    ensures
        parse_view(r) == spec_opt_bool(t@, key@, default),
{
    match find_opt(t, String::from_str(key)) {
        Option::Some(v) => match v {
            Toml::Bool(b) => Ok(*b),
            _ => {
                let ts = to_string_vec(vec!["boolean"]);
                proof {
                    assert(ts.deep_view() =~= seq!["boolean"@]);
                }
                Err(ParseError::IncorrectType(ts))
            },
        },
        Option::None => Ok(default),
    }
}

/// Decodes the unit named by a `px`/`ppt` flag pair.
pub fn parse_units(value: &Toml) -> (r: ParseResult<Units>)
    ensures
        parse_view(r) == spec_parse_units(value@),
{
    match value {
        Toml::Table(t) => {
            let px = match opt_bool(t, "px", false) {
                Ok(b) => b,
                Err(e) => {
                    return Err(e);
                },
            };
            let ppt = match opt_bool(t, "ppt", true) {
                Ok(b) => b,
                Err(e) => {
                    return Err(e);
                },
            };
            if px == ppt {
                Err(ParseError::ConflictDiff(String::from_str("px"), String::from_str("ppt")))
            } else if px {
                Ok(Units::Px)
            } else {
                Ok(Units::Ppt)
            }
        },
        _ => {
            let ts = to_string_vec(vec!["table"]);
            proof {
                assert(ts.deep_view() =~= seq!["table"@]);
            }
            Err(ParseError::IncorrectType(ts))
        },
    }
}

/// The low eight bits of `i` as an unsigned value.
pub open spec fn wrap_u8(i: int) -> int {
    i % 256
}

/// The low eight bits of `i` as a signed value.
pub open spec fn wrap_i8(i: int) -> int {
    (i % 256 + 128) % 256 - 128
}

/// The integer reduced to `u8` range, keeping its low eight bits.
pub fn to_u8(input: &i64) -> (r: u8)
    ensures
        r as int == wrap_u8(*input as int),
{
    let m: i64 = ((*input % 256) + 256) % 256;
    m as u8
}

/// `to_u8` lifted over an optional integer.
pub fn to_u8_opt(input: Option<&i64>) -> (r: Option<u8>)
    ensures
        match input {
            Option::Some(n) => r matches Option::Some(m) && m as int == wrap_u8(*n as int),
            Option::None => r is None,
        },
{
    match input {
        Option::Some(n) => Option::Some(to_u8(n)),
        Option::None => Option::None,
    }
}

/// The integer reduced to `i8` range, keeping its low eight bits.
pub fn to_i8(input: &i64) -> (r: i8)
    ensures
        r as int == wrap_i8(*input as int),
{
    let m: i64 = ((*input % 256) + 256) % 256;
    if m >= 128 {
        (m - 256) as i8
    } else {
        m as i8
    }
}

/// `to_i8` lifted over an optional integer.
pub fn to_i8_opt(input: Option<&i64>) -> (r: Option<i8>)
    ensures
        match input {
            Option::Some(n) => r matches Option::Some(m) && m as int == wrap_i8(*n as int),
            Option::None => r is None,
        },
{
    match input {
        Option::Some(n) => Option::Some(to_i8(n)),
        Option::None => Option::None,
    }
}

/// What decoding a split orientation yields; `h` and `v` are accepted
/// shorthands.
pub open spec fn spec_parse_splitopt(s: Seq<char>) -> Result<Split, ParseErrorV> {
    if s == "h"@ || s == "horizontal"@ {
        Ok(Split::Horizontal)
    } else if s == "v"@ || s == "vertical"@ {
        Ok(Split::Vertical)
    } else if s == "none"@ {
        Ok(Split::NoSplit)
    } else {
        Err(ParseErrorV::StringMismatch(seq!["horizontal"@, "vertical"@, "none"@], s))
    }
}

/// Decodes a split orientation.
pub fn parse_splitopt(value: &String) -> (r: ParseResult<Split>)
    ensures
        parse_view(r) == spec_parse_splitopt(value@),
{
    if str_eq(value.as_str(), "h") || str_eq(value.as_str(), "horizontal") {
        Ok(Split::Horizontal)
    } else if str_eq(value.as_str(), "v") || str_eq(value.as_str(), "vertical") {
        Ok(Split::Vertical)
    } else if str_eq(value.as_str(), "none") {
        Ok(Split::NoSplit)
    } else {
        let ts = to_string_vec(vec!["horizontal", "vertical", "none"]);
        proof {
            assert(ts.deep_view() =~= seq!["horizontal"@, "vertical"@, "none"@]);
        }
        Err(ParseError::StringMismatch(ts, value.clone()))
    }
}

/// What decoding a direction yields.
pub open spec fn spec_parse_directional(s: Seq<char>) -> Result<Directional, ParseErrorV> {
    if s == "up"@ {
        Ok(Directional::Up)
    } else if s == "down"@ {
        Ok(Directional::Down)
    } else if s == "left"@ {
        Ok(Directional::Left)
    } else if s == "right"@ {
        Ok(Directional::Right)
    } else {
        Err(ParseErrorV::StringMismatch(seq!["up"@, "down"@, "left"@, "right"@], s))
    }
}

/// Decodes a direction.
pub fn parse_directional(value: &String) -> (r: ParseResult<Directional>)
    ensures
        parse_view(r) == spec_parse_directional(value@),
{
    if str_eq(value.as_str(), "up") {
        Ok(Directional::Up)
    } else if str_eq(value.as_str(), "down") {
        Ok(Directional::Down)
    } else if str_eq(value.as_str(), "left") {
        Ok(Directional::Left)
    } else if str_eq(value.as_str(), "right") {
        Ok(Directional::Right)
    } else {
        let ts = to_string_vec(vec!["up", "down", "left", "right"]);
        proof {
            assert(ts.deep_view() =~= seq!["up"@, "down"@, "left"@, "right"@]);
        }
        Err(ParseError::StringMismatch(ts, value.clone()))
    }
}

/// What decoding a sibling selector yields; `previous` is an accepted alias.
pub open spec fn spec_parse_sibling(s: Seq<char>) -> Result<FocusSibling, ParseErrorV> {
    if s == "prev"@ || s == "previous"@ {
        Ok(FocusSibling::Prev)
    } else if s == "next"@ {
        Ok(FocusSibling::Next)
    } else {
        Err(ParseErrorV::StringMismatch(seq!["prev"@, "next"@], s))
    }
}

/// Decodes a sibling selector.
pub fn parse_sibling(value: &String) -> (r: ParseResult<FocusSibling>)
    ensures
        parse_view(r) == spec_parse_sibling(value@),
{
    if str_eq(value.as_str(), "prev") || str_eq(value.as_str(), "previous") {
        Ok(FocusSibling::Prev)
    } else if str_eq(value.as_str(), "next") {
        Ok(FocusSibling::Next)
    } else {
        let ts = to_string_vec(vec!["prev", "next"]);
        proof {
            assert(ts.deep_view() =~= seq!["prev"@, "next"@]);
        }
        Err(ParseError::StringMismatch(ts, value.clone()))
    }
}

/// What decoding a hierarchy selector yields.
pub open spec fn spec_parse_hierarchy(s: Seq<char>) -> Result<Hierarchy, ParseErrorV> {
    if s == "child"@ {
        Ok(Hierarchy::Child)
    } else if s == "parent"@ {
        Ok(Hierarchy::Parent)
    } else {
        Err(ParseErrorV::StringMismatch(seq!["parent"@, "child"@], s))
    }
}

/// Decodes a hierarchy selector.
pub fn parse_hierarchy(value: &String) -> (r: ParseResult<Hierarchy>)
    ensures
        parse_view(r) == spec_parse_hierarchy(value@),
{
    if str_eq(value.as_str(), "child") {
        Ok(Hierarchy::Child)
    } else if str_eq(value.as_str(), "parent") {
        Ok(Hierarchy::Parent)
    } else {
        let ts = to_string_vec(vec!["parent", "child"]);
        proof {
            assert(ts.deep_view() =~= seq!["parent"@, "child"@]);
        }
        Err(ParseError::StringMismatch(ts, value.clone()))
    }
}

/// What decoding a layout name yields; `split-h` and `split-v` are accepted
/// aliases of `splith` and `splitv`.
pub open spec fn spec_parse_layoutopt(s: Seq<char>) -> Result<Layout, ParseErrorV> {
    if s == "default"@ {
        Ok(Layout::Default)
    } else if s == "stacking"@ {
        Ok(Layout::Stacking)
    } else if s == "tabbed"@ {
        Ok(Layout::Tabbed)
    } else if s == "splith"@ || s == "split-h"@ {
        Ok(Layout::SplitH)
    } else if s == "splitv"@ || s == "split-v"@ {
        Ok(Layout::SplitV)
    } else {
        Err(ParseErrorV::StringMismatch(
            seq!["default"@, "stacking"@, "tabbed"@, "splith"@, "splitv"@],
            s,
        ))
    }
}

/// Decodes a layout name.
pub fn parse_layoutopt(value: &String) -> (r: ParseResult<Layout>)
    ensures
        parse_view(r) == spec_parse_layoutopt(value@),
{
    if str_eq(value.as_str(), "default") {
        Ok(Layout::Default)
    } else if str_eq(value.as_str(), "stacking") {
        Ok(Layout::Stacking)
    } else if str_eq(value.as_str(), "tabbed") {
        Ok(Layout::Tabbed)
    } else if str_eq(value.as_str(), "splith") || str_eq(value.as_str(), "split-h") {
        Ok(Layout::SplitH)
    } else if str_eq(value.as_str(), "splitv") || str_eq(value.as_str(), "split-v") {
        Ok(Layout::SplitV)
    } else {
        let ts = to_string_vec(vec!["default", "stacking", "tabbed", "splith", "splitv"]);
        proof {
            assert(ts.deep_view() =~= seq![
                "default"@,
                "stacking"@,
                "tabbed"@,
                "splith"@,
                "splitv"@,
            ]);
        }
        Err(ParseError::StringMismatch(ts, value.clone()))
    }
}

/// What decoding a one-argument layout cycle yields.
pub open spec fn spec_parse_layoutcyclesingle(s: Seq<char>) -> Result<
    LayoutCycleSingle,
    ParseErrorV,
> {
    if s == "all"@ {
        Ok(LayoutCycleSingle::All)
    } else if s == "split"@ {
        Ok(LayoutCycleSingle::Split)
    } else {
        Err(ParseErrorV::StringMismatch(seq!["all"@, "split"@], s))
    }
}

/// Decodes a one-argument layout cycle.
pub fn parse_layoutcyclesingle(value: &String) -> (r: ParseResult<LayoutCycleSingle>)
    ensures
        parse_view(r) == spec_parse_layoutcyclesingle(value@),
{
    if str_eq(value.as_str(), "all") {
        Ok(LayoutCycleSingle::All)
    } else if str_eq(value.as_str(), "split") {
        Ok(LayoutCycleSingle::Split)
    } else {
        let ts = to_string_vec(vec!["all", "split"]);
        proof {
            assert(ts.deep_view() =~= seq!["all"@, "split"@]);
        }
        Err(ParseError::StringMismatch(ts, value.clone()))
    }
}

/// What decoding one element of a layout cycle list yields; `split-h` and
/// `split-v` are accepted aliases.
pub open spec fn spec_parse_layoutcyclemulti(s: Seq<char>) -> Result<
    LayoutCycleMulti,
    ParseErrorV,
> {
    if s == "stacking"@ {
        Ok(LayoutCycleMulti::Stacking)
    } else if s == "tabbed"@ {
        Ok(LayoutCycleMulti::Tabbed)
    } else if s == "split"@ {
        Ok(LayoutCycleMulti::Split)
    } else if s == "splith"@ || s == "split-h"@ {
        Ok(LayoutCycleMulti::SplitH)
    } else if s == "splitv"@ || s == "split-v"@ {
        Ok(LayoutCycleMulti::SplitV)
    } else {
        Err(ParseErrorV::StringMismatch(
            seq!["stacking"@, "tabbed"@, "split"@, "split_h"@, "split_v"@],
            s,
        ))
    }
}

/// Decodes one element of a layout cycle list.
pub fn parse_layoutcyclemulti(value: &String) -> (r: ParseResult<LayoutCycleMulti>)
    ensures
        parse_view(r) == spec_parse_layoutcyclemulti(value@),
{
    if str_eq(value.as_str(), "stacking") {
        Ok(LayoutCycleMulti::Stacking)
    } else if str_eq(value.as_str(), "tabbed") {
        Ok(LayoutCycleMulti::Tabbed)
    } else if str_eq(value.as_str(), "split") {
        Ok(LayoutCycleMulti::Split)
    } else if str_eq(value.as_str(), "splith") || str_eq(value.as_str(), "split-h") {
        Ok(LayoutCycleMulti::SplitH)
    } else if str_eq(value.as_str(), "splitv") || str_eq(value.as_str(), "split-v") {
        Ok(LayoutCycleMulti::SplitV)
    } else {
        let ts = to_string_vec(vec!["stacking", "tabbed", "split", "split_h", "split_v"]);
        proof {
            assert(ts.deep_view() =~= seq![
                "stacking"@,
                "tabbed"@,
                "split"@,
                "split_h"@,
                "split_v"@,
            ]);
        }
        Err(ParseError::StringMismatch(ts, value.clone()))
    }
}

/// How one optional flag key pieceutes to a `bindsym` flag list: nothing
/// when absent or off, the flag when on; a non-boolean node is rejected.
pub open spec fn spec_flag_of(t: Seq<(Seq<char>, TomlV)>, key: Seq<char>, flag: BindsymV) -> Result<
    Seq<BindsymV>,
    ParseErrorV,
> {
    match tbl_get(t, key) {
        Option::None => Ok(Seq::empty()),
        Option::Some(v) => match v {
            TomlV::Bool(b) => if b {
                Ok(seq![flag])
            } else {
                Ok(Seq::<BindsymV>::empty())
            },
            _ => Err(ParseErrorV::IncorrectType(seq!["boolean"@])),
        },
    }
}

/// Joins two flag-list steps, keeping the first error.
pub open spec fn spec_flags_step(
    acc: Result<Seq<BindsymV>, ParseErrorV>,
    step: Result<Seq<BindsymV>, ParseErrorV>,
) -> Result<Seq<BindsymV>, ParseErrorV> {
    match acc {
        Err(e) => Err(e),
        Ok(a) => match step {
            Err(e) => Err(e),
            Ok(s) => Ok(a + s),
        },
    }
}

/// What collecting the `bindsym` flags of a table yields: the recognized flag
/// keys in their fixed order, each on if its boolean is on, then the input
/// device if one is named.
pub open spec fn spec_collect_bindsym_args(t: Seq<(Seq<char>, TomlV)>) -> Result<
    Seq<BindsymV>,
    ParseErrorV,
> {
    let flags = spec_flags_step(
        spec_flags_step(
            spec_flags_step(
                spec_flags_step(
                    spec_flags_step(
                        spec_flags_step(
                            spec_flags_step(
                                spec_flags_step(
                                    spec_flag_of(t, "whole-window"@, BindsymV::WholeWindow),
                                    spec_flag_of(t, "border"@, BindsymV::Border),
                                ),
                                spec_flag_of(t, "exclude-titlebar"@, BindsymV::ExcludeTitlebar),
                            ),
                            spec_flag_of(t, "release"@, BindsymV::Release),
                        ),
                        spec_flag_of(t, "locked"@, BindsymV::Locked),
                    ),
                    spec_flag_of(t, "to-code"@, BindsymV::ToCode),
                ),
                spec_flag_of(t, "no-warn"@, BindsymV::NoWarn),
            ),
            spec_flag_of(t, "no-repeat"@, BindsymV::NoRepeat),
        ),
        spec_flag_of(t, "inhibited"@, BindsymV::Inhibited),
    );
    match flags {
        Err(e) => Err(e),
        Ok(fs) => match tbl_get(t, "input-device"@) {
            Option::None => Ok(fs),
            Option::Some(v) => match v {
                TomlV::Str(s) => Ok(fs.push(BindsymV::InputDevice(s))),
                _ => Err(ParseErrorV::IncorrectType(seq!["string"@])),
            },
        },
    }
}

/// Appends one flag's pieceution to the collected list.
fn collect_flag(t: &Table, key: &str, flag: Bindsym, out: &mut Vec<Bindsym>) -> (r: ParseResult<
    (),
>)
    ensures
        match spec_flag_of(t@, key@, flag.deep_view()) {
            Ok(piece) => r is Ok && final(out).deep_view() == old(out).deep_view() + piece,
            Err(e) => r matches Err(e2) && e2@ == e && *final(out) == *old(out),
        },
{
    match find_opt(t, String::from_str(key)) {
        Option::Some(v) => match v {
            Toml::Bool(b) => {
                if *b {
                    let ghost old_dv = out.deep_view();
                    let ghost fv = flag.deep_view();
                    out.push(flag);
                    proof {
                        assert(out.deep_view() =~= old_dv + seq![fv]);
                    }
                    Ok(())
                } else {
                    proof {
                        assert(out.deep_view() =~= out.deep_view() + Seq::<BindsymV>::empty());
                    }
                    Ok(())
                }
            },
            _ => {
                let ts = to_string_vec(vec!["boolean"]);
                proof {
                    assert(ts.deep_view() =~= seq!["boolean"@]);
                }
                Err(ParseError::IncorrectType(ts))
            },
        },
        Option::None => {
            proof {
                assert(out.deep_view() =~= out.deep_view() + Seq::<BindsymV>::empty());
            }
            Ok(())
        },
    }
}

/// Collects the `bindsym` flags named in a table, in their fixed order, the
/// input device last.
pub fn collect_bindsym_args(value: &Table) -> (r: ParseResult<Vec<Bindsym>>)
    ensures
        parse_view(r) == spec_collect_bindsym_args(value@),
{
    let mut out: Vec<Bindsym> = Vec::new();
    proof {
        assert(out.deep_view() =~= Seq::<BindsymV>::empty());
    }
    if let Err(e) = collect_flag(value, "whole-window", Bindsym::WholeWindow, &mut out) {
        return Err(e);
    }
    if let Err(e) = collect_flag(value, "border", Bindsym::Border, &mut out) {
        return Err(e);
    }
    if let Err(e) = collect_flag(value, "exclude-titlebar", Bindsym::ExcludeTitlebar, &mut out) {
        return Err(e);
    }
    if let Err(e) = collect_flag(value, "release", Bindsym::Release, &mut out) {
        return Err(e);
    }
    if let Err(e) = collect_flag(value, "locked", Bindsym::Locked, &mut out) {
        return Err(e);
    }
    if let Err(e) = collect_flag(value, "to-code", Bindsym::ToCode, &mut out) {
        return Err(e);
    }
    if let Err(e) = collect_flag(value, "no-warn", Bindsym::NoWarn, &mut out) {
        return Err(e);
    }
    if let Err(e) = collect_flag(value, "no-repeat", Bindsym::NoRepeat, &mut out) {
        return Err(e);
    }
    if let Err(e) = collect_flag(value, "inhibited", Bindsym::Inhibited, &mut out) {
        return Err(e);
    }
    match find_opt(value, String::from_str("input-device")) {
        Option::Some(v) => match v {
            Toml::Str(s) => {
                let ghost old_dv = out.deep_view();
                out.push(Bindsym::InputDevice(s.clone()));
                proof {
                    assert(out.deep_view() =~= old_dv.push(BindsymV::InputDevice(s@)));
                }
                Ok(out)
            },
            _ => {
                let ts = to_string_vec(vec!["string"]);
                proof {
                    assert(ts.deep_view() =~= seq!["string"@]);
                }
                Err(ParseError::IncorrectType(ts))
            },
        },
        Option::None => Ok(out),
    }
}


/// Decoding the canonical spelling of a togglable boolean, given as a string
/// node, yields the value back.
pub proof fn lemma_togglable_bool_round_trip(v: TogglableBool)
    ensures
        spec_parse_togglable_bool(TomlV::Str(v.text())) == Ok::<TogglableBool, ParseErrorV>(v),
{
    reveal_strlit("yes");
    reveal_strlit("enable");
    reveal_strlit("true");
    reveal_strlit("no");
    reveal_strlit("disable");
    reveal_strlit("false");
    reveal_strlit("toggle");
    assert("yes"@.len() == 3);
    assert("enable"@.len() == 6);
    assert("true"@.len() == 4);
    assert("no"@.len() == 2);
    assert("disable"@.len() == 7);
    assert("false"@.len() == 5);
    assert("toggle"@.len() == 6);
    assert("yes"@ != "enable"@);
    assert("yes"@ != "true"@);
    assert("yes"@ != "no"@);
    assert("yes"@ != "disable"@);
    assert("yes"@ != "false"@);
    assert("yes"@ != "toggle"@);
    assert("enable"@ != "true"@);
    assert("enable"@ != "no"@);
    assert("enable"@ != "disable"@);
    assert("enable"@ != "false"@);
    assert("enable"@[0] != "toggle"@[0]);
    assert("enable"@ != "toggle"@);
    assert("true"@ != "no"@);
    assert("true"@ != "disable"@);
    assert("true"@ != "false"@);
    assert("true"@ != "toggle"@);
    assert("no"@ != "disable"@);
    assert("no"@ != "false"@);
    assert("no"@ != "toggle"@);
    assert("disable"@ != "false"@);
    assert("disable"@ != "toggle"@);
    assert("false"@ != "toggle"@);

    assert(spec_parse_togglable_bool(TomlV::Str(TogglableBool::Enable.text()))
        == Ok::<TogglableBool, ParseErrorV>(TogglableBool::Enable));
    assert(spec_parse_togglable_bool(TomlV::Str(TogglableBool::Disable.text()))
        == Ok::<TogglableBool, ParseErrorV>(TogglableBool::Disable));
    assert(spec_parse_togglable_bool(TomlV::Str(TogglableBool::Toggle.text()))
        == Ok::<TogglableBool, ParseErrorV>(TogglableBool::Toggle));
}

/// Every accepted alias of a togglable boolean decodes to its value, and the
/// canonical spelling is not the alias.
pub proof fn lemma_togglable_bool_aliases()
    ensures
        spec_parse_togglable_bool(TomlV::Str("yes"@)) == Ok::<TogglableBool, ParseErrorV>(
            TogglableBool::Enable,
        ),
        spec_parse_togglable_bool(TomlV::Str("true"@)) == Ok::<TogglableBool, ParseErrorV>(
            TogglableBool::Enable,
        ),
        spec_parse_togglable_bool(TomlV::Str("no"@)) == Ok::<TogglableBool, ParseErrorV>(
            TogglableBool::Disable,
        ),
        spec_parse_togglable_bool(TomlV::Str("false"@)) == Ok::<TogglableBool, ParseErrorV>(
            TogglableBool::Disable,
        ),
        spec_parse_togglable_bool(TomlV::Bool(true)) == Ok::<TogglableBool, ParseErrorV>(
            TogglableBool::Enable,
        ),
        spec_parse_togglable_bool(TomlV::Bool(false)) == Ok::<TogglableBool, ParseErrorV>(
            TogglableBool::Disable,
        ),
        TogglableBool::Enable.text() != "yes"@,
        TogglableBool::Enable.text() != "true"@,
        TogglableBool::Disable.text() != "no"@,
        TogglableBool::Disable.text() != "false"@,
{
    reveal_strlit("yes");
    reveal_strlit("enable");
    reveal_strlit("true");
    reveal_strlit("no");
    reveal_strlit("disable");
    reveal_strlit("false");
    reveal_strlit("toggle");
    assert("yes"@.len() == 3);
    assert("enable"@.len() == 6);
    assert("true"@.len() == 4);
    assert("no"@.len() == 2);
    assert("disable"@.len() == 7);
    assert("false"@.len() == 5);
    assert("toggle"@.len() == 6);
    assert("yes"@ != "enable"@);
    assert("yes"@ != "true"@);
    assert("yes"@ != "no"@);
    assert("yes"@ != "disable"@);
    assert("yes"@ != "false"@);
    assert("yes"@ != "toggle"@);
    assert("enable"@ != "true"@);
    assert("enable"@ != "no"@);
    assert("enable"@ != "disable"@);
    assert("enable"@ != "false"@);
    assert("enable"@[0] != "toggle"@[0]);
    assert("enable"@ != "toggle"@);
    assert("true"@ != "no"@);
    assert("true"@ != "disable"@);
    assert("true"@ != "false"@);
    assert("true"@ != "toggle"@);
    assert("no"@ != "disable"@);
    assert("no"@ != "false"@);
    assert("no"@ != "toggle"@);
    assert("disable"@ != "false"@);
    assert("disable"@ != "toggle"@);
    assert("false"@ != "toggle"@);

}

/// Decoding the canonical spelling of a resize direction yields the value
/// back.
pub proof fn lemma_size_round_trip(v: Size)
    ensures
        spec_parse_size(v.text()) == Ok::<Size, ParseErrorV>(v),
{
    reveal_strlit("grow");
    reveal_strlit("shrink");
    assert("grow"@.len() == 4);
    assert("shrink"@.len() == 6);
    assert("grow"@ != "shrink"@);
    assert(spec_parse_size(Size::Grow.text()) == Ok::<Size, ParseErrorV>(Size::Grow));
    assert(spec_parse_size(Size::Shrink.text()) == Ok::<Size, ParseErrorV>(Size::Shrink));
}

/// Decoding the canonical spelling of a split orientation yields the value
/// back.
pub proof fn lemma_splitopt_round_trip(v: Split)
    ensures
        spec_parse_splitopt(v.text()) == Ok::<Split, ParseErrorV>(v),
{
    reveal_strlit("h");
    reveal_strlit("horizontal");
    reveal_strlit("v");
    reveal_strlit("vertical");
    reveal_strlit("none");
    assert("h"@.len() == 1);
    assert("horizontal"@.len() == 10);
    assert("v"@.len() == 1);
    assert("vertical"@.len() == 8);
    assert("none"@.len() == 4);
    assert("h"@ != "horizontal"@);
    assert("h"@[0] != "v"@[0]);
    assert("h"@ != "v"@);
    assert("h"@ != "vertical"@);
    assert("h"@ != "none"@);
    assert("horizontal"@ != "v"@);
    assert("horizontal"@ != "vertical"@);
    assert("horizontal"@ != "none"@);
    assert("v"@ != "vertical"@);
    assert("v"@ != "none"@);
    assert("vertical"@ != "none"@);

    assert(spec_parse_splitopt(Split::Horizontal.text()) == Ok::<Split, ParseErrorV>(
        Split::Horizontal,
    ));
    assert(spec_parse_splitopt(Split::Vertical.text()) == Ok::<Split, ParseErrorV>(
        Split::Vertical,
    ));
    assert(spec_parse_splitopt(Split::NoSplit.text()) == Ok::<Split, ParseErrorV>(
        Split::NoSplit,
    ));
}

/// The split shorthands decode to their orientations, and the canonical
/// spellings are the long forms.
pub proof fn lemma_splitopt_aliases()
    ensures
        spec_parse_splitopt("h"@) == Ok::<Split, ParseErrorV>(Split::Horizontal),
        spec_parse_splitopt("v"@) == Ok::<Split, ParseErrorV>(Split::Vertical),
        Split::Horizontal.text() != "h"@,
        Split::Vertical.text() != "v"@,
{
    reveal_strlit("h");
    reveal_strlit("horizontal");
    reveal_strlit("v");
    reveal_strlit("vertical");
    reveal_strlit("none");
    assert("h"@.len() == 1);
    assert("horizontal"@.len() == 10);
    assert("v"@.len() == 1);
    assert("vertical"@.len() == 8);
    assert("none"@.len() == 4);
    assert("h"@ != "horizontal"@);
    assert("h"@[0] != "v"@[0]);
    assert("h"@ != "v"@);
    assert("h"@ != "vertical"@);
    assert("h"@ != "none"@);
    assert("horizontal"@ != "v"@);
    assert("horizontal"@ != "vertical"@);
    assert("horizontal"@ != "none"@);
    assert("v"@ != "vertical"@);
    assert("v"@ != "none"@);
    assert("vertical"@ != "none"@);

}

/// Decoding the canonical spelling of a direction yields the value back.
pub proof fn lemma_directional_round_trip(v: Directional)
    ensures
        spec_parse_directional(v.text()) == Ok::<Directional, ParseErrorV>(v),
{
    reveal_strlit("up");
    reveal_strlit("down");
    reveal_strlit("left");
    reveal_strlit("right");
    assert("up"@.len() == 2);
    assert("down"@.len() == 4);
    assert("left"@.len() == 4);
    assert("right"@.len() == 5);
    assert("up"@ != "down"@);
    assert("up"@ != "left"@);
    assert("up"@ != "right"@);
    assert("down"@[0] != "left"@[0]);
    assert("down"@ != "left"@);
    assert("down"@ != "right"@);
    assert("left"@ != "right"@);

    assert(spec_parse_directional(Directional::Up.text()) == Ok::<Directional, ParseErrorV>(
        Directional::Up,
    ));
    assert(spec_parse_directional(Directional::Down.text()) == Ok::<Directional, ParseErrorV>(
        Directional::Down,
    ));
    assert(spec_parse_directional(Directional::Left.text()) == Ok::<Directional, ParseErrorV>(
        Directional::Left,
    ));
    assert(spec_parse_directional(Directional::Right.text()) == Ok::<Directional, ParseErrorV>(
        Directional::Right,
    ));
}

/// Decoding the canonical spelling of a sibling selector yields the value
/// back.
pub proof fn lemma_sibling_round_trip(v: FocusSibling)
    ensures
        spec_parse_sibling(v.text()) == Ok::<FocusSibling, ParseErrorV>(v),
{
    reveal_strlit("prev");
    reveal_strlit("previous");
    reveal_strlit("next");
    assert("prev"@.len() == 4);
    assert("previous"@.len() == 8);
    assert("next"@.len() == 4);
    assert("prev"@ != "previous"@);
    assert("prev"@[0] != "next"@[0]);
    assert("prev"@ != "next"@);
    assert("previous"@ != "next"@);

    assert(spec_parse_sibling(FocusSibling::Prev.text()) == Ok::<FocusSibling, ParseErrorV>(
        FocusSibling::Prev,
    ));
    assert(spec_parse_sibling(FocusSibling::Next.text()) == Ok::<FocusSibling, ParseErrorV>(
        FocusSibling::Next,
    ));
}

/// The alias `previous` decodes to the previous sibling, whose canonical
/// spelling stays `prev`.
pub proof fn lemma_sibling_aliases()
    ensures
        spec_parse_sibling("previous"@) == Ok::<FocusSibling, ParseErrorV>(FocusSibling::Prev),
        FocusSibling::Prev.text() != "previous"@,
{
    reveal_strlit("prev");
    reveal_strlit("previous");
    reveal_strlit("next");
    assert("prev"@.len() == 4);
    assert("previous"@.len() == 8);
    assert("next"@.len() == 4);
    assert("prev"@ != "previous"@);
    assert("prev"@[0] != "next"@[0]);
    assert("prev"@ != "next"@);
    assert("previous"@ != "next"@);

}

/// Decoding the canonical spelling of a hierarchy selector yields the value
/// back.
pub proof fn lemma_hierarchy_round_trip(v: Hierarchy)
    ensures
        spec_parse_hierarchy(v.text()) == Ok::<Hierarchy, ParseErrorV>(v),
{
    reveal_strlit("child");
    reveal_strlit("parent");
    assert("child"@.len() == 5);
    assert("parent"@.len() == 6);
    assert("child"@ != "parent"@);

    assert(spec_parse_hierarchy(Hierarchy::Parent.text()) == Ok::<Hierarchy, ParseErrorV>(
        Hierarchy::Parent,
    ));
    assert(spec_parse_hierarchy(Hierarchy::Child.text()) == Ok::<Hierarchy, ParseErrorV>(
        Hierarchy::Child,
    ));
}

/// Decoding the canonical spelling of a layout name yields the value back.
pub proof fn lemma_layoutopt_round_trip(v: Layout)
    ensures
        spec_parse_layoutopt(v.text()) == Ok::<Layout, ParseErrorV>(v),
{
    reveal_strlit("default");
    reveal_strlit("stacking");
    reveal_strlit("tabbed");
    reveal_strlit("splith");
    reveal_strlit("split-h");
    reveal_strlit("splitv");
    reveal_strlit("split-v");
    assert("default"@.len() == 7);
    assert("stacking"@.len() == 8);
    assert("tabbed"@.len() == 6);
    assert("splith"@.len() == 6);
    assert("split-h"@.len() == 7);
    assert("splitv"@.len() == 6);
    assert("split-v"@.len() == 7);
    assert("default"@ != "stacking"@);
    assert("default"@ != "tabbed"@);
    assert("default"@ != "splith"@);
    assert("default"@[0] != "split-h"@[0]);
    assert("default"@ != "split-h"@);
    assert("default"@ != "splitv"@);
    assert("default"@[0] != "split-v"@[0]);
    assert("default"@ != "split-v"@);
    assert("stacking"@ != "tabbed"@);
    assert("stacking"@ != "splith"@);
    assert("stacking"@ != "split-h"@);
    assert("stacking"@ != "splitv"@);
    assert("stacking"@ != "split-v"@);
    assert("tabbed"@[0] != "splith"@[0]);
    assert("tabbed"@ != "splith"@);
    assert("tabbed"@ != "split-h"@);
    assert("tabbed"@[0] != "splitv"@[0]);
    assert("tabbed"@ != "splitv"@);
    assert("tabbed"@ != "split-v"@);
    assert("splith"@ != "split-h"@);
    assert("splith"@[5] != "splitv"@[5]);
    assert("splith"@ != "splitv"@);
    assert("splith"@ != "split-v"@);
    assert("split-h"@ != "splitv"@);
    assert("split-h"@[6] != "split-v"@[6]);
    assert("split-h"@ != "split-v"@);
    assert("splitv"@ != "split-v"@);

    assert(spec_parse_layoutopt(Layout::Default.text()) == Ok::<Layout, ParseErrorV>(
        Layout::Default,
    ));
    assert(spec_parse_layoutopt(Layout::Stacking.text()) == Ok::<Layout, ParseErrorV>(
        Layout::Stacking,
    ));
    assert(spec_parse_layoutopt(Layout::Tabbed.text()) == Ok::<Layout, ParseErrorV>(
        Layout::Tabbed,
    ));
    assert(spec_parse_layoutopt(Layout::SplitH.text()) == Ok::<Layout, ParseErrorV>(
        Layout::SplitH,
    ));
    assert(spec_parse_layoutopt(Layout::SplitV.text()) == Ok::<Layout, ParseErrorV>(
        Layout::SplitV,
    ));
}

/// The dashed layout aliases decode to the same layouts as the canonical
/// spellings.
pub proof fn lemma_layoutopt_aliases()
    ensures
        spec_parse_layoutopt("split-h"@) == Ok::<Layout, ParseErrorV>(Layout::SplitH),
        spec_parse_layoutopt("split-v"@) == Ok::<Layout, ParseErrorV>(Layout::SplitV),
        Layout::SplitH.text() != "split-h"@,
        Layout::SplitV.text() != "split-v"@,
{
    reveal_strlit("default");
    reveal_strlit("stacking");
    reveal_strlit("tabbed");
    reveal_strlit("splith");
    reveal_strlit("split-h");
    reveal_strlit("splitv");
    reveal_strlit("split-v");
    assert("default"@.len() == 7);
    assert("stacking"@.len() == 8);
    assert("tabbed"@.len() == 6);
    assert("splith"@.len() == 6);
    assert("split-h"@.len() == 7);
    assert("splitv"@.len() == 6);
    assert("split-v"@.len() == 7);
    assert("default"@ != "stacking"@);
    assert("default"@ != "tabbed"@);
    assert("default"@ != "splith"@);
    assert("default"@[0] != "split-h"@[0]);
    assert("default"@ != "split-h"@);
    assert("default"@ != "splitv"@);
    assert("default"@[0] != "split-v"@[0]);
    assert("default"@ != "split-v"@);
    assert("stacking"@ != "tabbed"@);
    assert("stacking"@ != "splith"@);
    assert("stacking"@ != "split-h"@);
    assert("stacking"@ != "splitv"@);
    assert("stacking"@ != "split-v"@);
    assert("tabbed"@[0] != "splith"@[0]);
    assert("tabbed"@ != "splith"@);
    assert("tabbed"@ != "split-h"@);
    assert("tabbed"@[0] != "splitv"@[0]);
    assert("tabbed"@ != "splitv"@);
    assert("tabbed"@ != "split-v"@);
    assert("splith"@ != "split-h"@);
    assert("splith"@[5] != "splitv"@[5]);
    assert("splith"@ != "splitv"@);
    assert("splith"@ != "split-v"@);
    assert("split-h"@ != "splitv"@);
    assert("split-h"@[6] != "split-v"@[6]);
    assert("split-h"@ != "split-v"@);
    assert("splitv"@ != "split-v"@);

}

/// Decoding the canonical spelling of a one-argument layout cycle yields the
/// value back.
pub proof fn lemma_layoutcyclesingle_round_trip(v: LayoutCycleSingle)
    ensures
        spec_parse_layoutcyclesingle(v.text()) == Ok::<LayoutCycleSingle, ParseErrorV>(v),
{
    reveal_strlit("all");
    reveal_strlit("split");
    assert("all"@.len() == 3);
    assert("split"@.len() == 5);
    assert("all"@ != "split"@);

    assert(spec_parse_layoutcyclesingle(LayoutCycleSingle::All.text()) == Ok::<
        LayoutCycleSingle,
        ParseErrorV,
    >(LayoutCycleSingle::All));
    assert(spec_parse_layoutcyclesingle(LayoutCycleSingle::Split.text()) == Ok::<
        LayoutCycleSingle,
        ParseErrorV,
    >(LayoutCycleSingle::Split));
}

/// Decoding the canonical spelling of a layout cycle element yields the
/// value back.
pub proof fn lemma_layoutcyclemulti_round_trip(v: LayoutCycleMulti)
    ensures
        spec_parse_layoutcyclemulti(v.text()) == Ok::<LayoutCycleMulti, ParseErrorV>(v),
{
    reveal_strlit("stacking");
    reveal_strlit("tabbed");
    reveal_strlit("split");
    reveal_strlit("splith");
    reveal_strlit("split-h");
    reveal_strlit("splitv");
    reveal_strlit("split-v");
    assert("stacking"@.len() == 8);
    assert("tabbed"@.len() == 6);
    assert("split"@.len() == 5);
    assert("splith"@.len() == 6);
    assert("split-h"@.len() == 7);
    assert("splitv"@.len() == 6);
    assert("split-v"@.len() == 7);
    assert("stacking"@ != "tabbed"@);
    assert("stacking"@ != "split"@);
    assert("stacking"@ != "splith"@);
    assert("stacking"@ != "split-h"@);
    assert("stacking"@ != "splitv"@);
    assert("stacking"@ != "split-v"@);
    assert("tabbed"@ != "split"@);
    assert("tabbed"@[0] != "splith"@[0]);
    assert("tabbed"@ != "splith"@);
    assert("tabbed"@ != "split-h"@);
    assert("tabbed"@[0] != "splitv"@[0]);
    assert("tabbed"@ != "splitv"@);
    assert("tabbed"@ != "split-v"@);
    assert("split"@ != "splith"@);
    assert("split"@ != "split-h"@);
    assert("split"@ != "splitv"@);
    assert("split"@ != "split-v"@);
    assert("splith"@ != "split-h"@);
    assert("splith"@[5] != "splitv"@[5]);
    assert("splith"@ != "splitv"@);
    assert("splith"@ != "split-v"@);
    assert("split-h"@ != "splitv"@);
    assert("split-h"@[6] != "split-v"@[6]);
    assert("split-h"@ != "split-v"@);
    assert("splitv"@ != "split-v"@);

    assert(spec_parse_layoutcyclemulti(LayoutCycleMulti::Stacking.text()) == Ok::<
        LayoutCycleMulti,
        ParseErrorV,
    >(LayoutCycleMulti::Stacking));
    assert(spec_parse_layoutcyclemulti(LayoutCycleMulti::Tabbed.text()) == Ok::<
        LayoutCycleMulti,
        ParseErrorV,
    >(LayoutCycleMulti::Tabbed));
    assert(spec_parse_layoutcyclemulti(LayoutCycleMulti::Split.text()) == Ok::<
        LayoutCycleMulti,
        ParseErrorV,
    >(LayoutCycleMulti::Split));
    assert(spec_parse_layoutcyclemulti(LayoutCycleMulti::SplitH.text()) == Ok::<
        LayoutCycleMulti,
        ParseErrorV,
    >(LayoutCycleMulti::SplitH));
    assert(spec_parse_layoutcyclemulti(LayoutCycleMulti::SplitV.text()) == Ok::<
        LayoutCycleMulti,
        ParseErrorV,
    >(LayoutCycleMulti::SplitV));
}


/// The dashed cycle-list aliases decode to the same layouts as the canonical
/// spellings.
pub proof fn lemma_layoutcyclemulti_aliases()
    ensures
        spec_parse_layoutcyclemulti("split-h"@) == Ok::<LayoutCycleMulti, ParseErrorV>(
            LayoutCycleMulti::SplitH,
        ),
        spec_parse_layoutcyclemulti("split-v"@) == Ok::<LayoutCycleMulti, ParseErrorV>(
            LayoutCycleMulti::SplitV,
        ),
        LayoutCycleMulti::SplitH.text() != "split-h"@,
        LayoutCycleMulti::SplitV.text() != "split-v"@,
{
    reveal_strlit("stacking");
    reveal_strlit("tabbed");
    reveal_strlit("split");
    reveal_strlit("splith");
    reveal_strlit("split-h");
    reveal_strlit("splitv");
    reveal_strlit("split-v");
    assert("split-h"@.len() == 7);
    assert("split-v"@.len() == 7);
    assert("stacking"@.len() == 8);
    assert("tabbed"@.len() == 6);
    assert("split"@.len() == 5);
    assert("splith"@.len() == 6);
    assert("splitv"@.len() == 6);
    assert("split-h"@[6] != "split-v"@[6]);
    assert("split-h"@ != "split-v"@);
}

} // verus!
