use hyprswitch::exec::{
    action_commands, action_dry_run_text, switch_to_active, Active, ClientData, HyprlandData,
    SwitchAction, SwitchError, WorkspaceData,
};

fn data() -> HyprlandData {
    HyprlandData {
        clients: vec![
            ("0xabc".to_string(), ClientData { workspace: 3, title: "term".to_string() }),
            ("0xdef".to_string(), ClientData { workspace: -98, title: "scratch".to_string() }),
            ("0x111".to_string(), ClientData { workspace: 7, title: "lost".to_string() }),
            ("0xabc".to_string(), ClientData { workspace: 4, title: "dup".to_string() }),
        ],
        workspaces: vec![
            (3, WorkspaceData { name: "3".to_string() }),
            (-98, WorkspaceData { name: "special:magic".to_string() }),
            (4, WorkspaceData { name: "4".to_string() }),
        ],
    }
}

#[test]
fn client_on_other_workspace() {
    let a = Active::Client("0xabc".to_string());
    let r = switch_to_active(Some(&a), &data(), Some(1)).unwrap();
    assert_eq!(r, vec![SwitchAction::FocusWorkspace(3), SwitchAction::FocusClient("0xabc".to_string())]);
}

#[test]
fn client_on_active_workspace() {
    let a = Active::Client("0xabc".to_string());
    let r = switch_to_active(Some(&a), &data(), Some(3)).unwrap();
    assert_eq!(r, vec![SwitchAction::FocusClient("0xabc".to_string())]);
}

#[test]
fn client_when_active_workspace_unknown() {
    let a = Active::Client("0xabc".to_string());
    let r = switch_to_active(Some(&a), &data(), None).unwrap();
    assert_eq!(r, vec![SwitchAction::FocusWorkspace(3), SwitchAction::FocusClient("0xabc".to_string())]);
}

#[test]
fn client_on_special_workspace() {
    let a = Active::Client("0xdef".to_string());
    let r = switch_to_active(Some(&a), &data(), Some(3)).unwrap();
    assert_eq!(
        r,
        vec![SwitchAction::ToggleSpecialWorkspace("magic".to_string()), SwitchAction::FocusClient("0xdef".to_string())]
    );
}

#[test]
fn unknown_client() {
    let a = Active::Client("0x999".to_string());
    assert_eq!(switch_to_active(Some(&a), &data(), Some(3)), Err(SwitchError::ClientNotFound));
}

#[test]
fn client_on_unknown_workspace() {
    let a = Active::Client("0x111".to_string());
    assert_eq!(switch_to_active(Some(&a), &data(), Some(3)), Err(SwitchError::WorkspaceNotFound));
}

#[test]
fn workspace_switches() {
    assert_eq!(switch_to_active(Some(&Active::Workspace(4)), &data(), Some(3)).unwrap(), vec![SwitchAction::FocusWorkspace(4)]);
    assert_eq!(switch_to_active(Some(&Active::Workspace(4)), &data(), Some(4)).unwrap(), vec![]);
    assert_eq!(switch_to_active(Some(&Active::Workspace(5)), &data(), Some(4)), Err(SwitchError::WorkspaceNotFound));
}

#[test]
fn special_workspace_name_without_prefix() {
    let mut d = data();
    d.workspaces.push((-99, WorkspaceData { name: "plain".to_string() }));
    assert_eq!(
        switch_to_active(Some(&Active::Workspace(-99)), &d, Some(1)).unwrap(),
        vec![SwitchAction::ToggleSpecialWorkspace("plain".to_string())]
    );
}

#[test]
fn monitor_and_nothing() {
    assert_eq!(switch_to_active(Some(&Active::Monitor(2)), &data(), Some(1)).unwrap(), vec![SwitchAction::FocusMonitor(2)]);
    assert_eq!(switch_to_active(None, &data(), Some(1)).unwrap(), vec![]);
}

#[test]
fn commands_of_steps() {
    assert_eq!(action_commands(&SwitchAction::FocusMonitor(1)), vec!["hl.dispatch(hl.dsp.focus({ monitor = 1 }))"]);
    assert_eq!(action_commands(&SwitchAction::FocusWorkspace(3)), vec!["hl.dispatch(hl.dsp.focus({ workspace = '3' }))"]);
    assert_eq!(
        action_commands(&SwitchAction::ToggleSpecialWorkspace("magic".to_string())),
        vec!["hl.dispatch(hl.dsp.workspace.toggle_special('magic'))"]
    );
    assert_eq!(
        action_commands(&SwitchAction::FocusClient("0xabc".to_string())),
        vec!["hl.dispatch(hl.dsp.focus({ window = 'address:0xabc' }))", "hl.dispatch(hl.dsp.window.bring_to_top())"]
    );
}

#[test]
fn dry_run_messages() {
    assert_eq!(action_dry_run_text(&SwitchAction::FocusMonitor(-1)), "switch to monitor -1");
    assert_eq!(action_dry_run_text(&SwitchAction::FocusWorkspace(12)), "switch to workspace 12");
    assert_eq!(action_dry_run_text(&SwitchAction::ToggleSpecialWorkspace("m".to_string())), "toggle workspace m");
    assert_eq!(action_dry_run_text(&SwitchAction::FocusClient("0x1".to_string())), "switch to next_client: 0x1");
}
