use hyprswitch::config::{
    Bind, Config, FilterBy, General, GuiConfig, HoldBindConfig, HoldClose, HoldOpen, Modifier,
    Navigate, OpenKeys, Other, PressBindConfig, PressClose, Reverse, SimpleBindConfig, SwitchType,
};
use hyprswitch::generate::{
    bind, binds_and_submaps_with_id, create_binds_and_submaps, export, generate_common_gui,
    generate_daemon_start, generate_hold, generate_other, generate_press, generate_simple,
};

const EXE: &str = "/usr/bin/hyprswitch";

fn other(filters: Option<Vec<FilterBy>>, monitors: Option<Vec<String>>) -> Other {
    Other {
        max_switch_offset: 9,
        hide_active_window_border: false,
        monitors,
        show_workspaces_on_all_monitors: true,
        include_special_workspaces: true,
        sort_by_recent: true,
        switch_type: SwitchType::Client,
        filter_by: filters,
    }
}

fn plain_other() -> Other {
    Other {
        max_switch_offset: 5,
        hide_active_window_border: true,
        monitors: None,
        show_workspaces_on_all_monitors: false,
        include_special_workspaces: false,
        sort_by_recent: false,
        switch_type: SwitchType::Workspace,
        filter_by: None,
    }
}

fn general(css: Option<String>) -> General {
    General {
        disable_toast: false,
        size_factor: "6".to_string(),
        gui: GuiConfig {
            show_title: true,
            workspaces_per_row: 5,
            strip_html_from_title: true,
            icon_size: 512,
            show_default_icon: false,
        },
        custom_css_path: css,
    }
}

fn press(reverse: Reverse, escape: bool, reopen: bool, arrows: bool) -> PressBindConfig {
    PressBindConfig {
        open: OpenKeys { modifier: Modifier::Super, key: "tab".to_string() },
        navigate: Navigate { forward: "tab".to_string(), reverse, arrow_keys: arrows },
        close: PressClose { escape, close_on_reopen: reopen },
        other: plain_other(),
    }
}

fn hold(reverse: Reverse, escape: bool, arrows: bool) -> HoldBindConfig {
    HoldBindConfig {
        open: HoldOpen { modifier: Modifier::Alt },
        navigate: Navigate { forward: "tab".to_string(), reverse, arrow_keys: arrows },
        close: HoldClose { escape },
        other: plain_other(),
    }
}

#[test]
fn bind_without_modifier() {
    assert_eq!(
        bind("", "escape", "hs close --kill", false),
        "hl.bind('escape', hl.dsp.exec_cmd('hs close --kill'))"
    );
}

#[test]
fn bind_with_modifier_on_release() {
    assert_eq!(
        bind("super", "tab", "hs close", true),
        "hl.bind('super + tab', hl.dsp.exec_cmd('hs close'), { release = true, transparent = true })"
    );
}

#[test]
fn common_gui_options() {
    let mut params = vec!["first".to_string()];
    generate_common_gui(&mut params, &other(None, Some(vec!["DP-1".to_string(), "HDMI-A-1".to_string()])));
    assert_eq!(
        params,
        vec![
            "first",
            "--max-switch-offset=9",
            "--hide-active-window-border=false",
            "--monitors=DP-1,HDMI-A-1",
            "--show-workspaces-on-all-monitors=true",
        ]
    );
}

#[test]
fn common_gui_options_without_monitors() {
    let mut params = Vec::new();
    generate_common_gui(&mut params, &plain_other());
    assert_eq!(
        params,
        vec![
            "--max-switch-offset=5",
            "--hide-active-window-border=true",
            "--show-workspaces-on-all-monitors=false",
        ]
    );
}

#[test]
fn other_options_with_filters() {
    let mut params = Vec::new();
    generate_other(
        &mut params,
        &other(Some(vec![FilterBy::SameClass, FilterBy::CurrentWorkspace, FilterBy::CurrentMonitor]), None),
    );
    assert_eq!(
        params,
        vec![
            "--include-special-workspaces=true",
            "--sort-recent",
            "--switch-type=client",
            "--filter-same-class",
            "--filter-current-workspace",
            "--filter-current-monitor",
        ]
    );
}

#[test]
fn other_options_plain() {
    let mut params = Vec::new();
    generate_other(&mut params, &plain_other());
    assert_eq!(params, vec!["--include-special-workspaces=false", "--switch-type=workspace"]);
}

#[test]
fn simple_bind_line() {
    let simple = SimpleBindConfig {
        open: OpenKeys { modifier: Modifier::Super, key: "tab".to_string() },
        reverse: true,
        offset: 2,
        other: other(Some(vec![FilterBy::SameClass]), None),
    };
    let mut lines = Vec::new();
    generate_simple(&mut lines, EXE, simple);
    assert_eq!(
        lines,
        vec![
            "hl.bind('super + tab', hl.dsp.exec_cmd('/usr/bin/hyprswitch simple --reverse --offset=2 \
             --include-special-workspaces=true --sort-recent --switch-type=client --filter-same-class'))"
        ]
    );
}

#[test]
fn simple_bind_forward() {
    let simple = SimpleBindConfig {
        open: OpenKeys { modifier: Modifier::Ctrl, key: "grave".to_string() },
        reverse: false,
        offset: 1,
        other: plain_other(),
    };
    let mut lines = Vec::new();
    generate_simple(&mut lines, "hs", simple);
    assert_eq!(
        lines,
        vec![
            "hl.bind('ctrl + grave', hl.dsp.exec_cmd('hs simple --offset=1 \
             --include-special-workspaces=false --switch-type=workspace'))"
        ]
    );
}

#[test]
fn press_bind_lines_with_modifier_reverse() {
    let mut lines = Vec::new();
    generate_press(&mut lines, "hs", press(Reverse::Mod(Modifier::Shift), true, true, true), "sm".to_string());
    assert_eq!(lines.len(), 29);
    assert_eq!(
        lines[0],
        "hl.bind('super + tab', hl.dsp.exec_cmd('hs gui-no-submap --submap=sm --reverse-key=mod=shift \
         --include-special-workspaces=false --switch-type=workspace --max-switch-offset=5 \
         --hide-active-window-border=true --show-workspaces-on-all-monitors=false'))"
    );
    assert_eq!(lines[1], "hl.define_submap('sm', function()");
    assert_eq!(lines[2], "    hl.bind('escape', hl.dsp.exec_cmd('hs close --kill'))");
    assert_eq!(lines[3], "    hl.bind('super + tab', hl.dsp.exec_cmd('hs close --kill'))");
    assert_eq!(lines[4], "    hl.bind('return', hl.dsp.exec_cmd('hs close'))");
    assert_eq!(lines[5], "    hl.bind('1', hl.dsp.exec_cmd('hs dispatch --offset=1 && hs close'))");
    assert_eq!(
        lines[6],
        "    hl.bind('shift + 1', hl.dsp.exec_cmd('hs dispatch --offset=1 --reverse && hs close'))"
    );
    assert_eq!(lines[21], "    hl.bind('9', hl.dsp.exec_cmd('hs dispatch --offset=9 && hs close'))");
    assert_eq!(lines[23], "    hl.bind('right', hl.dsp.exec_cmd('hs dispatch'))");
    assert_eq!(lines[24], "    hl.bind('left', hl.dsp.exec_cmd('hs dispatch --reverse'))");
    assert_eq!(lines[25], "    hl.bind('tab', hl.dsp.exec_cmd('hs dispatch'))");
    assert_eq!(lines[26], "    hl.bind('shift + tab', hl.dsp.exec_cmd('hs dispatch --reverse'))");
    assert_eq!(lines[27], "    hl.bind('escape', hl.dsp.submap('reset'))");
    assert_eq!(lines[28], "end)\n");
}

#[test]
fn press_bind_lines_with_key_reverse() {
    let mut lines = Vec::new();
    generate_press(&mut lines, "hs", press(Reverse::Key("grave".to_string()), false, false, false), "sm".to_string());
    assert_eq!(lines.len(), 3 + 9 + 4);
    assert_eq!(lines[2], "    hl.bind('return', hl.dsp.exec_cmd('hs close'))");
    assert_eq!(lines[3], "    hl.bind('1', hl.dsp.exec_cmd('hs dispatch --offset=1 && hs close'))");
    assert_eq!(lines[12], "    hl.bind('tab', hl.dsp.exec_cmd('hs dispatch'))");
    assert_eq!(lines[13], "    hl.bind('grave', hl.dsp.exec_cmd('hs dispatch --reverse'))");
    assert!(lines[0].contains("--reverse-key=key=grave"));
}

#[test]
fn hold_bind_lines_with_modifier_reverse() {
    let mut lines = Vec::new();
    generate_hold(&mut lines, "hs", hold(Reverse::Mod(Modifier::Shift), true, false), "sm".to_string());
    assert_eq!(lines.len(), 28);
    assert_eq!(
        lines[0],
        "hl.bind('alt + tab', hl.dsp.exec_cmd('hs gui-no-submap --submap=sm --reverse-key=mod=shift \
         --include-special-workspaces=false --switch-type=workspace --max-switch-offset=5 \
         --hide-active-window-border=true --show-workspaces-on-all-monitors=false && hs dispatch'))"
    );
    assert!(lines[1].starts_with("hl.bind('alt shift + tab', hl.dsp.exec_cmd('hs gui-no-submap "));
    assert!(lines[1].ends_with(" && hs dispatch --reverse'))"));
    assert_eq!(lines[2], "hl.define_submap('sm', function()");
    assert_eq!(lines[3], "    hl.bind('escape', hl.dsp.exec_cmd('hs close --kill'))");
    assert_eq!(lines[4], "    hl.bind('alt + tab', hl.dsp.exec_cmd('hs dispatch'))");
    assert_eq!(lines[5], "    hl.bind('alt shift + tab', hl.dsp.exec_cmd('hs dispatch --reverse'))");
    assert_eq!(
        lines[6],
        "    hl.bind('alt + tab', hl.dsp.exec_cmd('hs close'), { release = true, transparent = true })"
    );
    assert_eq!(
        lines[7],
        "    hl.bind('alt shift + tab', hl.dsp.exec_cmd('hs close'), { release = true, transparent = true })"
    );
    assert_eq!(lines[8], "    hl.bind('alt + 1', hl.dsp.exec_cmd('hs dispatch --offset=1 && hs close'))");
    assert_eq!(
        lines[9],
        "    hl.bind('alt shift + 1', hl.dsp.exec_cmd('hs dispatch --offset=1 --reverse && hs close'))"
    );
    assert_eq!(lines[26], "    hl.bind('escape', hl.dsp.submap('reset'))");
    assert_eq!(lines[27], "end)\n");
}

#[test]
fn hold_bind_lines_with_key_reverse_and_arrows() {
    let mut lines = Vec::new();
    generate_hold(&mut lines, "hs", hold(Reverse::Key("grave".to_string()), false, true), "sm".to_string());
    assert_eq!(lines.len(), 3 + 3 + 9 + 2 + 2);
    assert!(lines[1].starts_with("hl.bind('alt + grave', hl.dsp.exec_cmd('hs gui-no-submap "));
    assert_eq!(lines[4], "    hl.bind('alt + grave', hl.dsp.exec_cmd('hs dispatch --reverse'))");
    assert_eq!(lines[15], "    hl.bind('alt + right', hl.dsp.exec_cmd('hs dispatch'))");
    assert_eq!(lines[16], "    hl.bind('alt + left', hl.dsp.exec_cmd('hs dispatch --reverse'))");
}

#[test]
fn daemon_start_line() {
    let mut lines = Vec::new();
    generate_daemon_start(&mut lines, general(None), "hs");
    assert_eq!(
        lines,
        vec![
            "hl.on('init', function() hl.dispatch(hl.dsp.exec_cmd('DISABLE_TOASTS=false \
             REMOVE_HTML_FROM_WORKSPACE_NAME=true ICON_SIZE=512 SHOW_DEFAULT_ICON=false hs init \
             --size-factor=6 --show-title=true --workspaces-per-row=5')) end)\n"
        ]
    );
}

#[test]
fn daemon_start_line_with_readme_settings() {
    let mut g = general(None);
    g.gui.icon_size = 32;
    let mut lines = Vec::new();
    generate_daemon_start(&mut lines, g, "hs");
    assert_eq!(
        lines,
        vec![
            "hl.on('init', function() hl.dispatch(hl.dsp.exec_cmd('DISABLE_TOASTS=false \
             REMOVE_HTML_FROM_WORKSPACE_NAME=true ICON_SIZE=32 SHOW_DEFAULT_ICON=false hs init \
             --size-factor=6 --show-title=true --workspaces-per-row=5')) end)\n"
        ]
    );
}

#[test]
fn daemon_start_line_with_css() {
    let mut lines = Vec::new();
    generate_daemon_start(&mut lines, general(Some("/home/u/style.css".to_string())), "hs");
    assert!(lines[0].ends_with("--workspaces-per-row=5 --custom-css=/home/u/style.css')) end)\n"));
}

fn config() -> Config {
    Config {
        general: general(None),
        binds: vec![
            Bind::Simple(SimpleBindConfig {
                open: OpenKeys { modifier: Modifier::Super, key: "tab".to_string() },
                reverse: false,
                offset: 1,
                other: plain_other(),
            }),
            Bind::Press(press(Reverse::Mod(Modifier::Shift), true, false, false)),
            Bind::Hold(hold(Reverse::Key("grave".to_string()), true, false)),
        ],
    }
}

#[test]
fn script_with_fixed_id() {
    let lines = binds_and_submaps_with_id("hs", config(), 42);
    assert!(lines[0].starts_with("hl.on('init'"));
    assert!(lines[1].starts_with("hl.bind('super + tab', hl.dsp.exec_cmd('hs simple "));
    assert!(lines[2].contains("--submap=hyprswitch-42-1 "));
    assert_eq!(lines[3], "hl.define_submap('hyprswitch-42-1', function()");
    let defines: Vec<&String> = lines.iter().filter(|l| l.starts_with("hl.define_submap(")).collect();
    assert_eq!(defines.len(), 2);
    assert_eq!(defines[1], "hl.define_submap('hyprswitch-42-2', function()");
    assert_eq!(lines.len(), 1 + 1 + (2 + 2 + 18 + 2 + 2) + (3 + 1 + 3 + 9 + 2));
}

#[test]
fn script_id_is_in_range() {
    for _ in 0..20 {
        let lines = create_binds_and_submaps("hs", config());
        let define = &lines[3];
        let rest = define.strip_prefix("hl.define_submap('hyprswitch-").unwrap();
        let id: u32 = rest[..2].parse().unwrap();
        assert!((10..=99).contains(&id));
        assert_eq!(&rest[2..], "-1', function()");
        assert_eq!(lines, binds_and_submaps_with_id("hs", config(), id));
    }
}

#[test]
fn script_ids_vary_between_runs() {
    let mut ids = std::collections::BTreeSet::new();
    for _ in 0..60 {
        let lines = create_binds_and_submaps("hs", config());
        let rest = lines[3].strip_prefix("hl.define_submap('hyprswitch-").unwrap().to_string();
        ids.insert(rest[..2].to_string());
    }
    assert!(ids.len() > 1);
}

#[test]
fn export_joins_with_newlines() {
    assert_eq!(export(vec!["a".to_string(), "b".to_string(), "c".to_string()]), "a\nb\nc");
    assert_eq!(export(vec!["only".to_string()]), "only");
    assert_eq!(export(Vec::new()), "");
}

#[test]
fn export_splits_back_into_lines() {
    let lines = binds_and_submaps_with_id("hs", config(), 17);
    let text = export(lines.clone());
    let back: Vec<String> = text.split('\n').map(String::from).collect();
    let expected: Vec<String> = lines.iter().flat_map(|l| l.split('\n').map(String::from)).collect();
    assert_eq!(back, expected);
    let plain = vec!["a".to_string(), "".to_string(), "b c".to_string()];
    let back: Vec<String> = export(plain.clone()).split('\n').map(String::from).collect();
    assert_eq!(back, plain);
}

#[test]
fn export_of_concatenation() {
    let a = vec!["x".to_string(), "y".to_string()];
    let b = vec!["z".to_string()];
    let mut ab = a.clone();
    ab.extend(b.clone());
    assert_eq!(export(ab), format!("{}\n{}", export(a), export(b)));
}
