use swayconf::sway::layout::{Layout, LayoutCycleMulti, LayoutCycleSingle};
use swayconf::sway::options::{
    Bindsym, Directional, FocusSibling, Hierarchy, Size, Split, TogglableBool, Units,
};
use swayconf::tomlcfg::base::{from_str, Table, Toml};
use swayconf::tomlcfg::options::{
    collect_bindsym_args, parse_directional, parse_hierarchy, parse_layoutcyclemulti,
    parse_layoutcyclesingle, parse_layoutopt, parse_sibling, parse_size, parse_splitopt,
    parse_togglable_bool, parse_units, to_i8, to_u8,
};
use swayconf::tomlcfg::runtime::parse_runtime;
use swayconf::tomlcfg::ParseError;

#[test]
fn test_round_trips() {
    assert_eq!(parse_size(&Size::Grow.to_string()), Ok(Size::Grow));
    assert_eq!(parse_size(&Size::Shrink.to_string()), Ok(Size::Shrink));
    assert_eq!(
        parse_directional(&Directional::Left.to_string()),
        Ok(Directional::Left)
    );
    assert_eq!(
        parse_splitopt(&Split::Horizontal.to_string()),
        Ok(Split::Horizontal)
    );
    assert_eq!(
        parse_sibling(&FocusSibling::Prev.to_string()),
        Ok(FocusSibling::Prev)
    );
    assert_eq!(
        parse_hierarchy(&Hierarchy::Parent.to_string()),
        Ok(Hierarchy::Parent)
    );
    assert_eq!(parse_layoutopt(&Layout::SplitH.to_string()), Ok(Layout::SplitH));
    assert_eq!(
        parse_layoutcyclesingle(&LayoutCycleSingle::All.to_string()),
        Ok(LayoutCycleSingle::All)
    );
    assert_eq!(
        parse_layoutcyclemulti(&LayoutCycleMulti::SplitV.to_string()),
        Ok(LayoutCycleMulti::SplitV)
    );
    assert_eq!(
        parse_togglable_bool(&Toml::Str(TogglableBool::Toggle.to_string())),
        Ok(TogglableBool::Toggle)
    );
}

#[test]
fn test_aliases_decode_canonical_encodes() {
    // shorthands decode to the same value; encoding stays canonical
    assert_eq!(parse_splitopt(&"h".to_string()), Ok(Split::Horizontal));
    assert_eq!(parse_splitopt(&"v".to_string()), Ok(Split::Vertical));
    assert_eq!(Split::Horizontal.to_string(), "horizontal");
    assert_eq!(Split::Vertical.to_string(), "vertical");

    assert_eq!(parse_sibling(&"previous".to_string()), Ok(FocusSibling::Prev));
    assert_eq!(FocusSibling::Prev.to_string(), "prev");

    assert_eq!(parse_layoutopt(&"split-h".to_string()), Ok(Layout::SplitH));
    assert_eq!(Layout::SplitH.to_string(), "splith");

    assert_eq!(
        parse_togglable_bool(&Toml::Str("yes".to_string())),
        Ok(TogglableBool::Enable)
    );
    assert_eq!(
        parse_togglable_bool(&Toml::Bool(false)),
        Ok(TogglableBool::Disable)
    );
    assert_eq!(TogglableBool::Enable.to_string(), "enable");
}

#[test]
fn test_parse_units_flags() {
    let empty = Toml::Table(Table(vec![]));
    assert_eq!(parse_units(&empty), Ok(Units::Ppt));

    let px = Toml::Table(Table(vec![
        ("px".to_string(), Toml::Bool(true)),
        ("ppt".to_string(), Toml::Bool(false)),
    ]));
    assert_eq!(parse_units(&px), Ok(Units::Px));

    // `ppt` defaults to on, so naming `px` alone leaves both flags agreeing
    let both = Toml::Table(Table(vec![("px".to_string(), Toml::Bool(true))]));
    assert_eq!(
        parse_units(&both),
        Err(ParseError::ConflictDiff("px".to_string(), "ppt".to_string()))
    );
}

#[test]
fn test_integer_wrapping() {
    assert_eq!(to_u8(&300), 44);
    assert_eq!(to_u8(&-1), 255);
    assert_eq!(to_i8(&-1), -1);
    assert_eq!(to_i8(&255), -1);
    assert_eq!(to_i8(&130), -126);
}

#[test]
fn test_error_messages() {
    assert_eq!(
        ParseError::KeyNotFound("a".to_string()).message(),
        "Key not found: a"
    );
    assert_eq!(
        ParseError::MultiKey(vec!["a".to_string(), "b".to_string()]).message(),
        "One and only one key must be provided: found (a, b)"
    );
    assert_eq!(
        ParseError::StringMismatch(vec!["x".to_string()], "y".to_string()).message(),
        "String does not match: expected one of (x), found y"
    );
    assert_eq!(ParseError::NotImplemented.message(), "Not implemented");
}

#[test]
fn test_bindsym_flags_collected() {
    let t = Table(vec![
        ("release".to_string(), Toml::Bool(true)),
        ("whole-window".to_string(), Toml::Bool(true)),
        ("locked".to_string(), Toml::Bool(false)),
        ("input-device".to_string(), Toml::Str("kbd0".to_string())),
    ]);
    // flags come out in their fixed order, the input device last
    assert_eq!(
        collect_bindsym_args(&t),
        Ok(vec![
            Bindsym::WholeWindow,
            Bindsym::Release,
            Bindsym::InputDevice("kbd0".to_string()),
        ])
    );
}

#[test]
fn test_empty_cycle_list_rejected() {
    let t = from_str("layout = { cycle = [] }".to_string()).unwrap();
    assert!(parse_runtime(&t).is_err());

    let ok = from_str("layout = { cycle = [\"tabbed\", \"splitv\"] }".to_string()).unwrap();
    let cmd = parse_runtime(&ok).unwrap();
    assert_eq!(cmd.to_string(), "layout toggle tabbed splitv");
}
