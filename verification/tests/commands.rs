use swayconf::sway::commands::{Config, Runtime, SubFocus, SubLayout, SubMove};
use swayconf::sway::layout::Layout;
use swayconf::sway::options::{Directional, Size, TogglableBool, Units};

#[test]
fn test_to_string() {
    let command1 = Runtime::Exec("/bin/bash".to_string());
    let command2 = Runtime::Layout(SubLayout::Fixed(Layout::Tabbed));
    let command3 = Config::Bindsym {
        flags: vec![],
        keys: vec!["Mod4".to_string(), "a".to_string()],
        command: Box::new(Runtime::Exec("/bin/bash".to_string())),
    };
    let comment = Config::Comment("this is a test comment".to_string());

    let res1 = "exec /bin/bash".to_string();
    let res2 = "layout tabbed".to_string();
    let res3 = format!("bindsym Mod4+a {}", res1);
    let res_comment = "# this is a test comment".to_string();

    assert_eq!(command1.to_string(), res1);
    assert_eq!(command2.to_string(), res2);
    assert_eq!(command3.to_string(), res3);
    assert_eq!(comment.to_string(), res_comment);
}

#[test]
fn test_resize_to_string() {
    let grow = Runtime::Resize {
        change: Size::Grow,
        x: Some(10),
        y: None,
        unit: Units::Px,
    };
    let shrink = Runtime::Resize {
        change: Size::Shrink,
        x: None,
        y: Some(39),
        unit: Units::Ppt,
    };
    assert_eq!(grow.to_string(), "resize grow width 10 px");
    assert_eq!(shrink.to_string(), "resize shrink height 39 ppt");
}

#[test]
fn test_move_to_string() {
    let up = Runtime::Move(SubMove::Directional {
        direction: Directional::Up,
        px: None,
    });
    let up_ten = Runtime::Move(SubMove::Directional {
        direction: Directional::Up,
        px: Some(10),
    });
    let coords = Runtime::Move(SubMove::Coordinates {
        x: -3,
        y: 20,
        x_unit: Units::Px,
        y_unit: Units::Ppt,
        absolute: true,
    });
    assert_eq!(up.to_string(), "move up");
    assert_eq!(up_ten.to_string(), "move up 10 px");
    assert_eq!(coords.to_string(), "move absolute position -3 px 20 ppt");
}

#[test]
fn test_focus_to_string() {
    let named = Runtime::Focus(SubFocus::OutputNamed("jeff".to_string()));
    let sibling = Runtime::Focus(SubFocus::Sibling(
        swayconf::sway::options::FocusSibling::Prev,
    ));
    assert_eq!(named.to_string(), "focus output jeff");
    assert_eq!(sibling.to_string(), "focus prev sibling");
}

#[test]
fn test_workspace_to_string() {
    let named = Runtime::Workspace {
        number: 7,
        name: Some("pickle rick".to_string()),
    };
    let bare = Runtime::Workspace { number: 3, name: None };
    assert_eq!(named.to_string(), "workspace 7 pickle rick");
    assert_eq!(bare.to_string(), "workspace 3");
}

#[test]
fn test_floating_to_string() {
    assert_eq!(
        Runtime::Floating(TogglableBool::Toggle).to_string(),
        "floating toggle"
    );
    assert_eq!(Config::Blank.to_string(), "");
    assert_eq!(Runtime::Exit.to_string(), "exit");
}
