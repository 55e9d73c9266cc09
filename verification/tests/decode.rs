use swayconf::sway::commands::{Runtime, SubMove};
use swayconf::sway::options::Directional;
use swayconf::tomlcfg::ParseError;
use swayconf::tomlcfg::base::{find, from_str, Table, Toml};
use swayconf::tomlcfg::cfgfile::asm_config;
use swayconf::tomlcfg::runtime::parse_runtime;

#[test]
fn test_find() {
    let source = "a = 1\nb = \"two\"\nc = [true, false]\n[d]\none = 4".to_string();

    let base = from_str(source);

    match base {
        Ok(t) => {
            let res_a = find(&t, "a".to_string());
            let res_b = find(&t, "b".to_string());
            let res_e = find(&t, "e".to_string());
            assert!(res_a.is_ok());
            assert!(res_b.is_ok());
            assert!(res_e.is_err());
        }
        Err(e) => {
            panic!("{}", e.message());
        }
    }
}

#[test]
fn test_parse_runtime() {
    let teststrs = vec![
        "exit = true".to_string(),
        "exec = { command = \"ls -la ~\", no-startup-id = true }".to_string(),
        "set = { name = \"beans\", value = \"a\" }".to_string(),
        "move.directional = \"down\"".to_string(),
    ];

    let expecteds = vec![
        Runtime::Exit,
        Runtime::Exec("--no-startup-id ls -la ~".to_string()),
        Runtime::SetVar {
            name: "beans".to_string(),
            value: "a".to_string(),
        },
        Runtime::Move(SubMove::Directional {
            direction: Directional::Down,
            px: None,
        }),
    ];

    for (teststr, expected) in teststrs.iter().zip(expecteds) {
        println!("TEST: {}", teststr);
        let result = from_str(teststr.clone()).and_then(|t| parse_runtime(&t));

        assert!(result.is_ok());
        assert_eq!(result.unwrap(), expected);
        println!("OKAY: {}", expected.to_string());
    }
}

#[test]
fn test_from_str_tree() {
    let t = from_str("a = 1\nb = \"two\"".to_string()).unwrap();
    assert_eq!(t.0.len(), 2);
    assert_eq!(t.0[0], ("a".to_string(), Toml::Int(1)));
    assert_eq!(t.0[1], ("b".to_string(), Toml::Str("two".to_string())));
}

#[test]
fn test_exec_scenario() {
    let t = from_str("exec = { command = \"/bin/bash\" }".to_string()).unwrap();
    let cmd = parse_runtime(&t).unwrap();
    assert_eq!(cmd, Runtime::Exec("/bin/bash".to_string()));
    assert_eq!(cmd.to_string(), "exec /bin/bash");
}

#[test]
fn test_bindsym_scenario() {
    let t = from_str(
        "bindsym = { keys = \"Mod4+X\", command = { move = { directional = \"up\" } } }"
            .to_string(),
    )
    .unwrap();
    let cmd = parse_runtime(&t).unwrap();
    assert_eq!(
        cmd,
        Runtime::Bindsym {
            flags: vec![],
            keys: vec!["Mod4".to_string(), "X".to_string()],
            command: Box::new(Runtime::Move(SubMove::Directional {
                direction: Directional::Up,
                px: None,
            })),
        }
    );
    assert_eq!(cmd.to_string(), "bindsym Mod4+X move up");
}

#[test]
fn test_workspace_scenario() {
    let named = from_str("workspace = { number = 7, name = \"pickle rick\" }".to_string())
        .unwrap();
    let cmd = parse_runtime(&named).unwrap();
    assert_eq!(cmd.to_string(), "workspace 7 pickle rick");

    let bare = from_str("workspace = 3".to_string()).unwrap();
    let cmd2 = parse_runtime(&bare).unwrap();
    assert_eq!(cmd2.to_string(), "workspace 3");
}

#[test]
fn test_multi_key_rejected() {
    let t = from_str("exit = true\nkill = true".to_string()).unwrap();
    let result = parse_runtime(&t);
    assert_eq!(
        result,
        Err(ParseError::MultiKey(vec!["exit".to_string(), "kill".to_string()]))
    );
}

#[test]
fn test_missing_key_rejected() {
    let t = from_str("beans = 1".to_string()).unwrap();
    let result = parse_runtime(&t);
    assert_eq!(
        result,
        Err(ParseError::KeyNotFound(
            "exit, floating, focus, layout, move, reload, resize, split, bindsym, exec, exec-always, kill, set, workspace"
                .to_string()
        ))
    );
}

#[test]
fn test_nested_bindsym_rejected() {
    let t = from_str(
        "bindsym = { keys = \"Mod4+X\", command = { bindsym = { keys = \"a\", command = { exit = true } } } }"
            .to_string(),
    )
    .unwrap();
    let result = parse_runtime(&t);
    assert_eq!(
        result,
        Err(ParseError::ConflictKey("bindsym".to_string(), "bindsym".to_string()))
    );
}

#[test]
fn test_resize_exclusive() {
    let both = from_str("resize = { change = \"grow\", x = 1, y = 2 }".to_string()).unwrap();
    assert_eq!(
        parse_runtime(&both),
        Err(ParseError::ConflictDiff("x".to_string(), "y".to_string()))
    );

    let neither = from_str("resize = { change = \"grow\" }".to_string()).unwrap();
    assert_eq!(
        parse_runtime(&neither),
        Err(ParseError::ConflictDiff("x".to_string(), "y".to_string()))
    );

    let one = from_str(
        "resize = { change = \"grow\", x = 10, px = true, ppt = false }".to_string(),
    )
    .unwrap();
    let cmd = parse_runtime(&one).unwrap();
    assert_eq!(cmd.to_string(), "resize grow width 10 px");
}

#[test]
fn test_string_mismatch() {
    let t = from_str("split = \"diagonal\"".to_string()).unwrap();
    assert_eq!(
        parse_runtime(&t),
        Err(ParseError::StringMismatch(
            vec![
                "horizontal".to_string(),
                "vertical".to_string(),
                "none".to_string()
            ],
            "diagonal".to_string()
        ))
    );
}

#[test]
fn test_incorrect_type() {
    let t = from_str("exit = 3".to_string()).unwrap();
    assert_eq!(
        parse_runtime(&t),
        Err(ParseError::IncorrectType(vec!["boolean".to_string()]))
    );
}

#[test]
fn test_asm_config_sections() {
    let t = from_str(
        "exec = [ { command = \"ls\" } ]\n[bindsym]\n".to_string(),
    )
    .unwrap();
    let cf = asm_config("config".to_string(), &t).unwrap();
    let text = cf.to_string();
    assert!(text.contains("# Autostart applications in the [exec] array"));
    assert!(text.contains("exec ls"));
    // the bindsym group is empty, so its header never appears
    assert!(!text.contains("Keybinds provided in the [bindsym] table"));
}

#[test]
fn test_render_idempotent() {
    let t = from_str(
        "exec = [ { command = \"ls\" } ]\n[set]\na = \"b\"\n[bindsym]\n\"Mod4+X\".exec.command = \"firefox\"\n"
            .to_string(),
    )
    .unwrap();
    let cf = asm_config("config".to_string(), &t).unwrap();
    assert_eq!(cf.to_string(), cf.to_string());
}

#[test]
fn test_asm_config_full() {
    let t = from_str(
        "include = [ \"extra.toml\", \"colors\" ]\nexec-always = [ { command = \"sh x\", no-startup-id = true } ]\n[set]\nfoo = \"bar\"\n[bindsym]\n\"Mod4+Q\".kill = true\n[bar]\nstatus-command = \"i3blocks\"\n"
            .to_string(),
    )
    .unwrap();
    let cf = asm_config("config".to_string(), &t).unwrap();
    let text = cf.to_string();
    assert!(text.contains("set $foo bar"));
    assert!(text.contains("include extra"));
    assert!(text.contains("include colors"));
    assert!(text.contains("exec_always --no-startup-id sh x"));
    assert!(text.contains("bindsym Mod4+Q kill"));
    assert!(text.contains("bar  {\ni3blocks\n}"));
}

#[test]
fn test_find_borrowed_value() {
    let t = from_str("a = { b = true }".to_string()).unwrap();
    let v = find(&t, "a".to_string()).unwrap();
    match v {
        Toml::Table(inner) => {
            let b = find(inner, "b".to_string()).unwrap();
            assert_eq!(*b, Toml::Bool(true));
        }
        _ => panic!("expected a table"),
    }
    let _: &Table = match v {
        Toml::Table(inner) => inner,
        _ => unreachable!(),
    };
}
