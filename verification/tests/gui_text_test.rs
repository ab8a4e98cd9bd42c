use hyprswitch::config::{filter_to_flag, modifier_to_text, reverse_to_text, switch_type_to_text, FilterBy, Modifier, Reverse, SwitchType};
use hyprswitch::exec::{Active, HyprlandData};
use hyprswitch::gui::{gui_set_client, gui_set_monitor, gui_set_workspace, monitor_shown, monitors_to_show, GuiConfig, SharedData};
use hyprswitch::text::{bool_to_text, int_to_text, join_strings, nat_to_text, strip_prefix_text, trim_end_text};

fn shared() -> SharedData {
    SharedData {
        active: None,
        hypr_data: HyprlandData { clients: vec![], workspaces: vec![] },
        gui_config: GuiConfig { monitors: None, show_workspaces_on_all_monitors: false },
    }
}

#[test]
fn monitors_filter() {
    let conns = vec!["HDMI-A-1".to_string(), "DP-1".to_string(), "DP-2".to_string()];
    let all = GuiConfig { monitors: None, show_workspaces_on_all_monitors: false };
    assert_eq!(monitors_to_show(&all, &conns), vec![0, 1, 2]);
    let some = GuiConfig { monitors: Some(vec!["DP-2".to_string(), "DP-1".to_string()]), show_workspaces_on_all_monitors: true };
    assert_eq!(monitors_to_show(&some, &conns), vec![1, 2]);
    let none = GuiConfig { monitors: Some(vec![]), show_workspaces_on_all_monitors: true };
    assert_eq!(monitors_to_show(&none, &conns), Vec::<usize>::new());
    assert!(monitor_shown(&None, &"X".to_string()));
    assert!(!monitor_shown(&Some(vec!["Y".to_string()]), &"X".to_string()));
}

#[test]
fn selection_updates() {
    let mut s = shared();
    gui_set_client(&mut s, "0xabc".to_string());
    assert_eq!(s.active, Some(Active::Client("0xabc".to_string())));
    gui_set_workspace(&mut s, -98);
    assert_eq!(s.active, Some(Active::Workspace(-98)));
    gui_set_monitor(&mut s, 1);
    assert_eq!(s.active, Some(Active::Monitor(1)));
}

#[test]
fn decimal_text() {
    assert_eq!(nat_to_text(0), "0");
    assert_eq!(nat_to_text(1234567890), "1234567890");
    assert_eq!(int_to_text(-42), "-42");
    assert_eq!(int_to_text(i128::MIN), i128::MIN.to_string());
    assert_eq!(int_to_text(i128::MAX), i128::MAX.to_string());
    assert_eq!(bool_to_text(true), "true");
    assert_eq!(bool_to_text(false), "false");
}

#[test]
fn joins_and_trims() {
    assert_eq!(join_strings(&vec!["a".to_string(), "b".to_string()], ", "), "a, b");
    assert_eq!(join_strings(&vec![], ","), "");
    assert_eq!(trim_end_text("xyy", "y"), "x");
    assert_eq!(trim_end_text("abc", ""), "abc");
    assert_eq!(strip_prefix_text("special:magic", "special:"), "magic");
    assert_eq!(strip_prefix_text("special", "special:"), "special");
    assert_eq!(strip_prefix_text("äöü:x", "äöü:"), "x");
}

#[test]
fn config_texts() {
    assert_eq!(reverse_to_text(&Reverse::Mod(Modifier::Shift)), "mod=shift");
    assert_eq!(reverse_to_text(&Reverse::Key("grave".to_string())), "key=grave");
    assert_eq!(modifier_to_text(Modifier::Super), "super");
    assert_eq!(switch_type_to_text(SwitchType::Monitor), "monitor");
    assert_eq!(filter_to_flag(FilterBy::CurrentWorkspace), "--filter-current-workspace");
}
