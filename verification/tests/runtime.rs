use swayconf::sway::bind::{Bind, BindCodes, BindKeys};
use swayconf::sway::criteria::{Criteria, CriteriaVec, ShellType};
use swayconf::sway::exec::ExecParams;
use swayconf::sway::mov::{MoveParams, PositionParams};
use swayconf::sway::options::{ArgMap, Units};
use swayconf::sway::resize::{ResizeParams, ResizeSetParams, SingleAxisParams};
use swayconf::sway::runtime::Runtime;

#[test]
fn runtime_test_to_sway() {
    let cmd1 = Runtime::Exec(ExecParams::Text("/bin/true".to_string()));
    let cmd2 = Runtime::BindSym {
        flags: ArgMap::<Bind>::default(),
        keys: BindKeys::from(vec!["Mod4".to_string(), "X".to_string()]),
        command: Box::new(Runtime::Exec(ExecParams::Text("firefox".to_string()))),
    };
    let mut am = ArgMap::<Bind>::default();
    am.insert(Bind::ExcludeTitlebar, true);
    let cmd3 = Runtime::BindSym {
        flags: am,
        keys: BindKeys::from(vec!["Mod4".to_string(), "Shift".to_string()]),
        command: Box::new(Runtime::Exec(ExecParams::Text("ls -la ~".to_string()))),
    };
    let cmd4 = Runtime::SetVar {
        name: "foo".to_string(),
        value: "bar".to_string(),
    };

    assert_eq!(cmd1.to_string(), "exec /bin/true");
    assert_eq!(cmd4.to_string(), "set $foo bar");
    assert_eq!(cmd2.to_string(), "bindsym Mod4+X exec firefox");
    assert_eq!(cmd3.to_string(), "bindsym --exclude-titlebar Mod4+Shift exec ls -la ~");
}

#[test]
fn test_arg_map_insert() {
    let mut am = ArgMap::<Bind>::new();
    assert_eq!(am.insert(Bind::Release, true), None);
    assert_eq!(am.insert(Bind::Locked, false), None);
    assert_eq!(am.insert(Bind::Release, false), Some(true));
    assert_eq!(am.to_string(), "");
    assert_eq!(am.insert(Bind::Locked, true), Some(false));
    assert_eq!(am.to_string(), "--locked ");
}

#[test]
fn test_criteria_to_string() {
    let mut cv = CriteriaVec::new();
    cv.insert(Criteria::AppId("term".to_string()));
    cv.insert(Criteria::Id(42));
    cv.insert(Criteria::Shell(ShellType::Focused));
    assert_eq!(cv.to_string(), "[app_id=\"term\" id=42 shell_type=\"__focused__\"]");
    let focus = Runtime::CriteriaFocus(CriteriaVec::from(vec![Criteria::Tiling]));
    assert_eq!(focus.to_string(), "[tiling] focus");
}

#[test]
fn test_for_window_to_string() {
    let cmd = Runtime::ForWindow {
        criteria: CriteriaVec::from(vec![Criteria::Class("mpv".to_string())]),
        command: Box::new(Runtime::Move(MoveParams::Position(
            PositionParams::Coordinates { x: 10, y: 20, unit: Units::Ppt },
        ))),
    };
    assert_eq!(cmd.to_string(), "for_window [class=\"mpv\"] move position 10 ppt 20 ppt");
}

#[test]
fn test_bindcode_to_string() {
    let cmd = Runtime::BindCode {
        flags: ArgMap::<Bind>::default(),
        keys: BindCodes::from(vec![133, 53]),
        command: Box::new(Runtime::Kill),
    };
    assert_eq!(cmd.to_string(), "bindsym 133+53 kill");
}

#[test]
fn test_resize_params_to_string() {
    let grow = Runtime::Resize(ResizeParams::Grow(SingleAxisParams::Width {
        width: 10,
        unit: Units::Px,
    }));
    let set_both = Runtime::Resize(ResizeParams::SetTo(ResizeSetParams::Both {
        width: 100,
        height: 50,
        unit: Units::Ppt,
    }));
    assert_eq!(grow.to_string(), "resize grow width 10 px");
    assert_eq!(set_both.to_string(), "resize set width 100 ppt height 50 ppt");
}
