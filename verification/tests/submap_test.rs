use hyprswitch::submap::{
    exe_path, generate_submap, generate_submap_name, get_mod_from_mod_key, mod_key_to_text,
    submap_activation_script, submap_binds, submap_definition_script, submap_name_for,
    submap_reset_script, submap_scripts_named, CloseType, ModKey, ReverseKey,
};

#[test]
fn mod_names_ignore_side() {
    assert_eq!(get_mod_from_mod_key(ModKey::SuperL), "SUPER");
    assert_eq!(get_mod_from_mod_key(ModKey::SuperR), "SUPER");
    assert_eq!(get_mod_from_mod_key(ModKey::AltL), "ALT");
    assert_eq!(get_mod_from_mod_key(ModKey::AltR), "ALT");
    assert_eq!(get_mod_from_mod_key(ModKey::CtrlL), "CTRL");
    assert_eq!(get_mod_from_mod_key(ModKey::CtrlR), "CTRL");
    assert_eq!(get_mod_from_mod_key(ModKey::ShiftL), "SHIFT");
    assert_eq!(get_mod_from_mod_key(ModKey::ShiftR), "SHIFT");
}

#[test]
fn mod_key_names() {
    assert_eq!(mod_key_to_text(ModKey::SuperL), "super_l");
    assert_eq!(mod_key_to_text(ModKey::AltR), "alt_r");
    assert_eq!(mod_key_to_text(ModKey::ShiftR), "shift_r");
}

#[test]
fn binds_on_mod_key_release() {
    let binds = submap_binds("hs", ModKey::AltL, "tab", &ReverseKey::Mod("shift".to_string()), CloseType::ModKeyRelease);
    assert_eq!(binds.len(), 27);
    assert_eq!(binds[0], "hl.bind('escape', hl.dsp.exec_cmd('hs close --kill'))");
    assert_eq!(binds[1], "hl.bind('ALT + escape', hl.dsp.exec_cmd('hs close --kill'))");
    assert_eq!(binds[2], "hl.bind('ALT + tab', hl.dsp.exec_cmd('hs dispatch'))");
    assert_eq!(binds[3], "hl.bind('ALT shift + tab', hl.dsp.exec_cmd('hs dispatch -r'))");
    assert_eq!(binds[4], "hl.bind('ALT + alt_l', hl.dsp.exec_cmd('hs close'), { release = true, transparent = true })");
    assert_eq!(binds[5], "hl.bind('ALT shift + alt_l', hl.dsp.exec_cmd('hs close'), { release = true, transparent = true })");
    assert_eq!(binds[6], "hl.bind('ALT + 1', hl.dsp.exec_cmd('hs dispatch -o=1'))");
    assert_eq!(binds[7], "hl.bind('ALT shift + 1', hl.dsp.exec_cmd('hs dispatch -o=1 -r'))");
    assert_eq!(binds[23], "hl.bind('ALT shift + 9', hl.dsp.exec_cmd('hs dispatch -o=9 -r'))");
    assert_eq!(binds[24], "hl.bind('ALT + right', hl.dsp.exec_cmd('hs dispatch'))");
    assert_eq!(binds[25], "hl.bind('ALT + left', hl.dsp.exec_cmd('hs dispatch -r'))");
    assert_eq!(binds[26], "hl.bind('escape', hl.dsp.submap('reset'))");
}

#[test]
fn binds_on_release_with_reverse_key() {
    let binds = submap_binds("hs", ModKey::SuperR, "tab", &ReverseKey::Key("grave".to_string()), CloseType::ModKeyRelease);
    assert_eq!(binds.len(), 2 + 2 + 1 + 9 + 2 + 1);
    assert_eq!(binds[3], "hl.bind('SUPER + grave', hl.dsp.exec_cmd('hs dispatch -r'))");
    assert_eq!(binds[4], "hl.bind('SUPER + super_r', hl.dsp.exec_cmd('hs close'), { release = true, transparent = true })");
    assert_eq!(binds[5], "hl.bind('SUPER + 1', hl.dsp.exec_cmd('hs dispatch -o=1'))");
}

#[test]
fn binds_on_default_close() {
    let binds = submap_binds("hs", ModKey::SuperL, "tab", &ReverseKey::Key("grave".to_string()), CloseType::Default);
    assert_eq!(binds.len(), 16);
    assert_eq!(binds[2], "hl.bind('SUPER + tab', hl.dsp.exec_cmd('hs close --kill'))");
    assert_eq!(binds[3], "hl.bind('return', hl.dsp.exec_cmd('hs close'))");
    assert_eq!(binds[4], "hl.bind('1', hl.dsp.exec_cmd('hs dispatch -o=1 && hs close'))");
    assert_eq!(binds[13], "hl.bind('right', hl.dsp.exec_cmd('hs dispatch'))");
    assert_eq!(binds[14], "hl.bind('left', hl.dsp.exec_cmd('hs dispatch -r'))");
    assert_eq!(binds[15], "hl.bind('escape', hl.dsp.submap('reset'))");
}

#[test]
fn binds_on_default_close_with_reverse_mod() {
    let binds = submap_binds("hs", ModKey::CtrlL, "tab", &ReverseKey::Mod("shift".to_string()), CloseType::Default);
    assert_eq!(binds.len(), 2 + 1 + 1 + 18 + 2 + 1);
    assert_eq!(binds[5], "hl.bind('shift + 1', hl.dsp.exec_cmd('hs dispatch -o=1 -r && hs close'))");
}

#[test]
fn definition_script() {
    let binds = vec!["a".to_string(), "b".to_string()];
    assert_eq!(submap_definition_script("n", &binds), "hl.define_submap('n', function()\n    a\n    b\nend)");
}

#[test]
fn activation_and_reset_scripts() {
    assert_eq!(submap_activation_script("hyprswitch-7"), "hl.dispatch(hl.dsp.submap('hyprswitch-7'))");
    assert_eq!(submap_reset_script(), "hl.dispatch(hl.dsp.submap('reset'))");
}

#[test]
fn submap_names() {
    assert_eq!(submap_name_for(0), "hyprswitch-0");
    assert_eq!(submap_name_for(65535), "hyprswitch-65535");
    let name = generate_submap_name();
    let n: u16 = name.strip_prefix("hyprswitch-").unwrap().parse().unwrap();
    assert_eq!(name, submap_name_for(n));
}

#[test]
fn deleted_suffix_is_trimmed() {
    assert_eq!(exe_path("/usr/bin/hyprswitch (deleted)"), "/usr/bin/hyprswitch");
    assert_eq!(exe_path("/usr/bin/hs (deleted) (deleted)"), "/usr/bin/hs");
    assert_eq!(exe_path("/usr/bin/hs"), "/usr/bin/hs");
}

#[test]
fn scripts_with_fixed_name() {
    let (def, act) = submap_scripts_named("sm", "/bin/hs (deleted)", ModKey::AltL, "tab", &ReverseKey::Key("grave".to_string()), CloseType::Default);
    assert!(def.starts_with("hl.define_submap('sm', function()\n    hl.bind('escape', hl.dsp.exec_cmd('/bin/hs close --kill'))\n"));
    assert!(def.ends_with("\n    hl.bind('escape', hl.dsp.submap('reset'))\nend)"));
    assert_eq!(act, "hl.dispatch(hl.dsp.submap('sm'))");
}

#[test]
fn generated_scripts_agree_on_the_name() {
    let (def, act) = generate_submap("hs", ModKey::SuperL, "tab".to_string(), ReverseKey::Mod("shift".to_string()), CloseType::ModKeyRelease);
    let name = act.strip_prefix("hl.dispatch(hl.dsp.submap('").unwrap().strip_suffix("'))").unwrap().to_string();
    assert!(name.starts_with("hyprswitch-"));
    let (def2, _) = submap_scripts_named(&name, "hs", ModKey::SuperL, "tab", &ReverseKey::Mod("shift".to_string()), CloseType::ModKeyRelease);
    assert_eq!(def, def2);
}
