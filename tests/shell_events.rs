use meeps::shell::{dispatch, tray_menu, MenuEntryKind, MinimizePolicy, ShellAction, ShellEvent};

fn click(id: &str) -> ShellEvent {
    ShellEvent::TrayMenuClick { id: id.to_string() }
}

#[test]
fn close_always_hides() {
    for policy in [MinimizePolicy::Native, MinimizePolicy::HideToTray] {
        for _ in 0..3 {
            assert!(dispatch(policy, &ShellEvent::WindowClose) == ShellAction::HideWindow);
        }
    }
}

#[test]
fn minimize_follows_the_policy() {
    assert!(dispatch(MinimizePolicy::HideToTray, &ShellEvent::WindowMinimize) == ShellAction::HideWindow);
    assert!(dispatch(MinimizePolicy::Native, &ShellEvent::WindowMinimize) == ShellAction::PassThrough);
}

#[test]
fn show_and_left_click_restore_the_window() {
    for policy in [MinimizePolicy::Native, MinimizePolicy::HideToTray] {
        assert!(dispatch(policy, &click("show")) == ShellAction::ShowAndFocus);
        assert!(dispatch(policy, &ShellEvent::TrayLeftClick) == ShellAction::ShowAndFocus);
    }
}

#[test]
fn quit_exits_with_status_zero() {
    for policy in [MinimizePolicy::Native, MinimizePolicy::HideToTray] {
        assert!(dispatch(policy, &click("quit")) == ShellAction::Exit { code: 0 });
    }
}

#[test]
fn other_tray_events_are_left_alone() {
    assert!(dispatch(MinimizePolicy::Native, &click("Quit")) == ShellAction::PassThrough);
    assert!(dispatch(MinimizePolicy::Native, &click("")) == ShellAction::PassThrough);
    assert!(dispatch(MinimizePolicy::Native, &ShellEvent::TrayOther) == ShellAction::PassThrough);
}

#[test]
fn tray_menu_is_show_separator_quit() {
    let menu = tray_menu();
    assert_eq!(menu.len(), 3);
    assert_eq!((menu[0].id.as_str(), menu[0].label.as_str()), ("show", "Show Meeps"));
    assert!(menu[0].kind == MenuEntryKind::Action);
    assert!(menu[1].kind == MenuEntryKind::Separator);
    assert_eq!((menu[2].id.as_str(), menu[2].label.as_str()), ("quit", "Quit"));
    assert!(menu[2].kind == MenuEntryKind::Action);
}
