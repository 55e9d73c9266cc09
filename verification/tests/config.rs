use swayconf::sway::bind::Bind;
use swayconf::sway::config::{
    indent, with_comment_header, Bar, Config, Defaults, KeylessBindsym, ModeCfg, Modes,
};
use swayconf::sway::exec::ExecParams;
use swayconf::sway::layout::ConfigLayout;
use swayconf::sway::options::{ArgMap, DefaultBorder, DefaultOrientation};
use swayconf::sway::runtime::Runtime;

#[test]
fn config_test_to_sway() {
    let mut config = Config::default();
    config.execs = Some(vec![
        ExecParams::Text("ls".to_string()),
        ExecParams::Text("/bin/bash".to_string()),
    ]);

    let mut keys: Vec<(String, KeylessBindsym)> = Vec::new();
    keys.push((
        "Mod4+Shift".to_string(),
        KeylessBindsym::new(
            ArgMap::<Bind>::default(),
            Runtime::Exec(ExecParams::Text("ls -la ~".to_string())),
        ),
    ));
    keys.push((
        "Mod4+X".to_string(),
        KeylessBindsym::new(
            ArgMap::<Bind>::default(),
            Runtime::Exec(ExecParams::Text("~/beans.sh".to_string())),
        ),
    ));
    keys.push((
        "Mod4+Shift+Q".to_string(),
        KeylessBindsym::new(ArgMap::<Bind>::default(), Runtime::Kill),
    ));

    config.bindsym = Some(keys);

    config.bar = Some(Bar::new("".to_string(), "i3blocks".to_string()));

    println!("{}", &config.to_string());
}

#[test]
fn test_config_sections() {
    let mut config = Config::default();
    config.set = Some(vec![("mod".to_string(), "Mod4".to_string())]);
    config.execs = Some(vec![ExecParams::Text("ls".to_string())]);
    let text = config.to_string();
    assert!(text.contains("# Variables (using [set] table)\nset $mod Mod4\n\n"));
    assert!(text.contains("exec ls\n"));
    // nothing was bound, so no binding section appears
    assert!(!text.contains("bindsym"));
    assert!(!text.contains("bindcode"));
}

#[test]
fn test_bar_to_string() {
    let plain = Bar::new("".to_string(), "i3blocks".to_string());
    let named = Bar::new("top".to_string(), "i3blocks".to_string());
    assert_eq!(plain.to_string(), "bar {\n    status_command i3blocks\n}");
    assert_eq!(named.to_string(), "bar top {\n    status_command i3blocks\n}");
}

#[test]
fn test_modes_to_string() {
    let mode = ModeCfg {
        bindsym: Some(vec![(
            "Escape".to_string(),
            KeylessBindsym::new(
                ArgMap::<Bind>::default(),
                Runtime::Mode("default".to_string()),
            ),
        )]),
        bindcode: None,
    };
    let modes = Modes(vec![("resize".to_string(), mode)]);
    let text = modes.to_string();
    assert!(text.starts_with("# Configuration for mode resize\nmode resize {\n"));
    assert!(text.contains("    bindsym Escape mode default"));
}

#[test]
fn test_defaults_to_string() {
    let d = Defaults {
        orientation: Some(DefaultOrientation::Auto),
        layout: Some(ConfigLayout::Tabbed),
        border: Some(DefaultBorder::Pixel(2)),
        floating_border: None,
    };
    assert_eq!(
        d.to_string(),
        "workspace_layout tabbed\ndefault_orientation auto\ndefault_border pixel 2\n"
    );
}

#[test]
fn test_indent_and_header() {
    assert_eq!(indent("a\nb", 4), "    a\n    b");
    assert_eq!(
        with_comment_header("set $a b".to_string(), "one\ntwo".to_string()),
        "# one\n# two\nset $a b\n\n"
    );
}
