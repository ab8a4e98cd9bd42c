//! The Hyprland Lua script that a config file turns into: one line that
//! starts the daemon, then the binds of each configured switcher, with a
//! submap of its own for each press and hold bind.
use rand::RngExt;
use vstd::prelude::*;
use vstd::string::*;

use crate::config::{
    filter_flag, filter_to_flag, modifier_text, modifier_to_text, reverse_text, reverse_to_text,
    switch_type_text, switch_type_to_text, Bind, Config, FilterBy, General, HoldBindConfig, Modifier,
    Other, PressBindConfig, Reverse, SimpleBindConfig,
};
use crate::text::{bool_text, bool_to_text, int_text, int_to_text, join, join_strings, nat_text, opt_text,
    views, lemma_nat_text_injective, lemma_join_concat, push_line, split_at_char,
    lemma_split_join, lemma_join_starts_with_first, starts_with, ends_with,
    lemma_starts_with_concat, lemma_starts_with_trans};

verus! {

// ---------------------------------------------------------------------
// What each piece of the script is
// ---------------------------------------------------------------------

/// `line` indented by four spaces, as inside a submap definition.
pub open spec fn indent(line: Seq<char>) -> Seq<char> {
    "    "@ + line
}

/// A Lua call that binds the keys `mods + k` to run `cmd`; with `rt` the
/// bind fires on release and lets the key through.
pub open spec fn bind_line(mods: Seq<char>, k: Seq<char>, cmd: Seq<char>, rt: bool) -> Seq<char> {
    let keys = if mods.len() == 0 {
        k
    } else {
        mods + " + "@ + k
    };
    let opts = if rt {
        ", { release = true, transparent = true }"@
    } else {
        ""@
    };
    "hl.bind('"@ + keys + "', hl.dsp.exec_cmd('"@ + cmd + "')"@ + opts + ")"@
}

/// The line inside every submap that leaves it on escape.
pub open spec fn reset_line() -> Seq<char> {
    "    hl.bind('escape', hl.dsp.submap('reset'))"@
}

/// The line that closes a submap definition.
pub open spec fn end_line() -> Seq<char> {
    "end)\n"@
}

/// The line that opens the definition of the submap `name`.
pub open spec fn define_line(name: Seq<char>) -> Seq<char> {
    "hl.define_submap('"@ + name + "', function()"@
}

/// The GUI options shared by press and hold binds.
pub open spec fn common_gui_params(other: Other) -> Seq<Seq<char>> {
    seq![
        "--max-switch-offset="@ + int_text(other.max_switch_offset as int),
        "--hide-active-window-border="@ + bool_text(other.hide_active_window_border),
    ] + match other.monitors {
        Some(m) => seq!["--monitors="@ + join(views(m@), ","@)],
        None => Seq::empty(),
    } + seq![
        "--show-workspaces-on-all-monitors="@ + bool_text(
            other.show_workspaces_on_all_monitors,
        ),
    ]
}

/// The switching options shared by every kind of bind.
pub open spec fn other_params(other: Other) -> Seq<Seq<char>> {
    seq!["--include-special-workspaces="@ + bool_text(other.include_special_workspaces)] + (if other.sort_by_recent {
        seq!["--sort-recent"@]
    } else {
        Seq::empty()
    }) + seq!["--switch-type="@ + switch_type_text(other.switch_type)] + match other.filter_by {
        Some(f) => f@.map_values(|x: FilterBy| filter_flag(x)),
        None => Seq::empty(),
    }
}

/// The options of a simple bind.
pub open spec fn simple_params(simple: SimpleBindConfig) -> Seq<Seq<char>> {
    (if simple.reverse {
        seq!["--reverse"@]
    } else {
        Seq::empty()
    }) + seq!["--offset="@ + int_text(simple.offset as int)] + other_params(simple.other)
}

/// The one line of a simple bind.
pub open spec fn simple_line(exe: Seq<char>, simple: SimpleBindConfig) -> Seq<char> {
    bind_line(
        modifier_text(simple.open.modifier),
        simple.open.key@,
        exe + " simple "@ + join(simple_params(simple), " "@),
        false,
    )
}

/// The options with which a press or hold bind opens the GUI.
pub open spec fn gui_params(name: Seq<char>, reverse: Reverse, other: Other) -> Seq<Seq<char>> {
    seq!["--submap="@ + name, "--reverse-key="@ + reverse_text(reverse)] + other_params(other)
        + common_gui_params(other)
}

/// The binds of the digit `d` inside a submap: jump to the entry at that
/// offset and close, and with `rev_mods` the same backwards.
pub open spec fn digit_lines(
    exe: Seq<char>,
    main_mods: Seq<char>,
    rev_mods: Option<Seq<char>>,
    d: nat,
) -> Seq<Seq<char>> {
    seq![
        indent(
            bind_line(
                main_mods,
                nat_text(d),
                exe + " dispatch --offset="@ + nat_text(d) + " && "@ + exe + " close"@,
                false,
            ),
        ),
    ] + match rev_mods {
        Some(r) => seq![
            indent(
                bind_line(
                    r,
                    nat_text(d),
                    exe + " dispatch --offset="@ + nat_text(d) + " --reverse && "@ + exe
                        + " close"@,
                    false,
                ),
            ),
        ],
        None => Seq::empty(),
    }
}

/// The digit binds of the digits `1..=n`, in order.
pub open spec fn digits_block(
    exe: Seq<char>,
    main_mods: Seq<char>,
    rev_mods: Option<Seq<char>>,
    n: nat,
) -> Seq<Seq<char>>
    decreases n,
{
    if n == 0 {
        Seq::empty()
    } else {
        digits_block(exe, main_mods, rev_mods, (n - 1) as nat) + digit_lines(
            exe,
            main_mods,
            rev_mods,
            n,
        )
    }
}

/// The modifiers of a backwards digit bind of a press bind.
pub open spec fn press_rev_mods(reverse: Reverse) -> Option<Seq<char>> {
    match reverse {
        Reverse::Mod(m) => Some(modifier_text(m)),
        Reverse::Key(_) => None,
    }
}

/// The lines of a press bind up to its submap's return bind.
pub open spec fn press_head(exe: Seq<char>, press: PressBindConfig, name: Seq<char>) -> Seq<
    Seq<char>,
> {
    let m = modifier_text(press.open.modifier);
    let k = press.open.key@;
    let params = join(gui_params(name, press.navigate.reverse, press.other), " "@);
    seq![bind_line(m, k, exe + " gui-no-submap "@ + params, false), define_line(name)] + (if press.close.escape {
        seq![indent(bind_line(""@, "escape"@, exe + " close --kill"@, false))]
    } else {
        Seq::empty()
    }) + (if press.close.close_on_reopen {
        seq![indent(bind_line(m, k, exe + " close --kill"@, false))]
    } else {
        Seq::empty()
    }) + seq![indent(bind_line(""@, "return"@, exe + " close"@, false))]
}

/// The lines of a press bind's submap after its digit binds.
pub open spec fn press_tail(exe: Seq<char>, press: PressBindConfig) -> Seq<Seq<char>> {
    let fwd = press.navigate.forward@;
    (if press.navigate.arrow_keys {
        seq![
            indent(bind_line(""@, "right"@, exe + " dispatch"@, false)),
            indent(bind_line(""@, "left"@, exe + " dispatch --reverse"@, false)),
        ]
    } else {
        Seq::empty()
    }) + seq![
        indent(bind_line(""@, fwd, exe + " dispatch"@, false)),
        match press.navigate.reverse {
            Reverse::Key(rk) => indent(bind_line(""@, rk@, exe + " dispatch --reverse"@, false)),
            Reverse::Mod(rm) => indent(
                bind_line(modifier_text(rm), fwd, exe + " dispatch --reverse"@, false),
            ),
        },
        reset_line(),
        end_line(),
    ]
}

/// The lines of a press bind whose submap is `name`: the bind that opens
/// the GUI and enters the submap, then the submap's definition.
pub open spec fn press_lines(exe: Seq<char>, press: PressBindConfig, name: Seq<char>) -> Seq<
    Seq<char>,
> {
    press_head(exe, press, name) + digits_block(
        exe,
        ""@,
        press_rev_mods(press.navigate.reverse),
        9,
    ) + press_tail(exe, press)
}

/// The modifiers of a hold bind held together with its reverse modifier.
pub open spec fn hold_both_mods(open: Modifier, rm: Modifier) -> Seq<char> {
    modifier_text(open) + " "@ + modifier_text(rm)
}

/// The modifiers of a backwards digit bind of a hold bind.
pub open spec fn hold_rev_mods(open: Modifier, reverse: Reverse) -> Option<Seq<char>> {
    match reverse {
        Reverse::Mod(rm) => Some(hold_both_mods(open, rm)),
        Reverse::Key(_) => None,
    }
}

/// The lines of a hold bind before its submap's digit binds.
pub open spec fn hold_head(exe: Seq<char>, hold: HoldBindConfig, name: Seq<char>) -> Seq<Seq<char>> {
    let m = modifier_text(hold.open.modifier);
    let fwd = hold.navigate.forward@;
    let params = join(gui_params(name, hold.navigate.reverse, hold.other), " "@);
    let open_cmd = exe + " gui-no-submap "@ + params + " && "@ + exe;
    seq![
        bind_line(m, fwd, open_cmd + " dispatch"@, false),
        match hold.navigate.reverse {
            Reverse::Key(rk) => bind_line(m, rk@, open_cmd + " dispatch --reverse"@, false),
            Reverse::Mod(rm) => bind_line(
                hold_both_mods(hold.open.modifier, rm),
                fwd,
                open_cmd + " dispatch --reverse"@,
                false,
            ),
        },
        define_line(name),
    ] + (if hold.close.escape {
        seq![indent(bind_line(""@, "escape"@, exe + " close --kill"@, false))]
    } else {
        Seq::empty()
    }) + hold_moves(exe, hold)
}

/// The binds of a hold submap that move through the entries and that
/// close it when the modifier is released.
pub open spec fn hold_moves(exe: Seq<char>, hold: HoldBindConfig) -> Seq<Seq<char>> {
    let m = modifier_text(hold.open.modifier);
    let fwd = hold.navigate.forward@;
    seq![
        indent(bind_line(m, fwd, exe + " dispatch"@, false)),
        match hold.navigate.reverse {
            Reverse::Key(rk) => indent(bind_line(m, rk@, exe + " dispatch --reverse"@, false)),
            Reverse::Mod(rm) => indent(
                bind_line(
                    hold_both_mods(hold.open.modifier, rm),
                    fwd,
                    exe + " dispatch --reverse"@,
                    false,
                ),
            ),
        },
        indent(bind_line(m, fwd, exe + " close"@, true)),
    ] + match hold.navigate.reverse {
        Reverse::Mod(rm) => seq![
            indent(
                bind_line(hold_both_mods(hold.open.modifier, rm), fwd, exe + " close"@, true),
            ),
        ],
        Reverse::Key(_) => Seq::empty(),
    }
}

/// The lines of a hold bind's submap after its digit binds.
pub open spec fn hold_tail(exe: Seq<char>, hold: HoldBindConfig) -> Seq<Seq<char>> {
    let m = modifier_text(hold.open.modifier);
    (if hold.navigate.arrow_keys {
        seq![
            indent(bind_line(m, "right"@, exe + " dispatch"@, false)),
            indent(bind_line(m, "left"@, exe + " dispatch --reverse"@, false)),
        ]
    } else {
        Seq::empty()
    }) + seq![reset_line(), end_line()]
}

/// The lines of a hold bind whose submap is `name`: the binds that open
/// the GUI and enter the submap, then the submap's definition.
pub open spec fn hold_lines(exe: Seq<char>, hold: HoldBindConfig, name: Seq<char>) -> Seq<Seq<char>> {
    hold_head(exe, hold, name) + digits_block(
        exe,
        modifier_text(hold.open.modifier),
        hold_rev_mods(hold.open.modifier, hold.navigate.reverse),
        9,
    ) + hold_tail(exe, hold)
}

/// The environment with which the daemon is started.
pub open spec fn daemon_envs(general: General) -> Seq<Seq<char>> {
    seq![
        "DISABLE_TOASTS="@ + bool_text(general.disable_toast),
        "REMOVE_HTML_FROM_WORKSPACE_NAME="@ + bool_text(general.gui.strip_html_from_title),
        "ICON_SIZE="@ + int_text(general.gui.icon_size as int),
        "SHOW_DEFAULT_ICON="@ + bool_text(general.gui.show_default_icon),
    ]
}

/// The options with which the daemon is started.
pub open spec fn daemon_params(general: General) -> Seq<Seq<char>> {
    seq![
        "--size-factor="@ + general.size_factor@,
        "--show-title="@ + bool_text(general.gui.show_title),
        "--workspaces-per-row="@ + int_text(general.gui.workspaces_per_row as int),
    ] + match general.custom_css_path {
        Some(p) => seq!["--custom-css="@ + p@],
        None => Seq::empty(),
    }
}

/// The line that starts the daemon when Hyprland starts.
pub open spec fn daemon_start_line(general: General, exe: Seq<char>) -> Seq<char> {
    "hl.on('init', function() hl.dispatch(hl.dsp.exec_cmd('"@ + join(daemon_envs(general), " "@)
        + " "@ + exe + " init "@ + join(daemon_params(general), " "@) + "')) end)\n"@
}

/// The name of the submap of the bind at `index`, for the run id `id`.
pub open spec fn bind_submap_name(id: int, index: nat) -> Seq<char> {
    "hyprswitch-"@ + int_text(id) + "-"@ + nat_text(index)
}

/// The lines of one bind whose submap, if it has one, is `name`.
pub open spec fn bind_block(exe: Seq<char>, bind: Bind, name: Seq<char>) -> Seq<Seq<char>> {
    match bind {
        Bind::Press(p) => press_lines(exe, p, name),
        Bind::Hold(h) => hold_lines(exe, h, name),
        Bind::Simple(s) => seq![simple_line(exe, s)],
    }
}

/// The lines of the first `n` binds, the bind at index `i` with the submap
/// `bind_submap_name(id, i)`.
pub open spec fn binds_lines(exe: Seq<char>, binds: Seq<Bind>, id: int, n: nat) -> Seq<Seq<char>>
    decreases n,
{
    if n == 0 {
        Seq::empty()
    } else {
        binds_lines(exe, binds, id, (n - 1) as nat) + bind_block(
            exe,
            binds[n - 1],
            bind_submap_name(id, (n - 1) as nat),
        )
    }
}

/// The whole script of a config, for the run id `id`: the daemon start,
/// then the lines of each bind in order.
pub open spec fn script_lines(exe: Seq<char>, config: Config, id: int) -> Seq<Seq<char>> {
    seq![daemon_start_line(config.general, exe)] + binds_lines(
        exe,
        config.binds@,
        id,
        config.binds@.len(),
    )
}

// ---------------------------------------------------------------------
// Building the script
// ---------------------------------------------------------------------

/// Appends all of `more` to `lines`.
fn push_all(lines: &mut Vec<String>, more: Vec<String>)
    ensures
        views(final(lines)@) == views(old(lines)@) + views(more@),
{
    let ghost start = views(lines@);
    let mut i: usize = 0;
    while i < more.len()
        invariant
            0 <= i <= more.len(),
            views(lines@) == start + views(more@).take(i as int),
        decreases more.len() - i,
    {
        push_line(lines, more[i].clone());
        assert(views(more@).take(i + 1) =~= views(more@).take(i as int).push(more@[i as int]@));
        assert(start + views(more@).take(i + 1) =~= (start + views(more@).take(i as int)).push(
            more@[i as int]@,
        ));
        i = i + 1;
    }
    assert(views(more@).take(more.len() as int) =~= views(more@));
}

/// `line` indented by four spaces.
fn indented(line: String) -> (s: String)
    ensures
        s@ == indent(line@),
{
    String::from_str("    ").concat(line.as_str())
}

/// Appends the GUI options shared by press and hold binds.
pub fn generate_common_gui(params: &mut Vec<String>, other: &Other)
    ensures
        views(final(params)@) == views(old(params)@) + common_gui_params(*other),
{
    let ghost start = views(params@);
    let n = int_to_text(other.max_switch_offset as i128);
    push_line(params, String::from_str("--max-switch-offset=").concat(n.as_str()));
    let b = bool_to_text(other.hide_active_window_border);
    push_line(params, String::from_str("--hide-active-window-border=").concat(b.as_str()));
    if let Some(monitors) = &other.monitors {
        let j = join_strings(monitors, ",");
        push_line(params, String::from_str("--monitors=").concat(j.as_str()));
    }
    let b = bool_to_text(other.show_workspaces_on_all_monitors);
    push_line(params, String::from_str("--show-workspaces-on-all-monitors=").concat(b.as_str()));
    assert(views(params@) =~= start + common_gui_params(*other));
}

/// Appends the switching options shared by every kind of bind.
pub fn generate_other(params: &mut Vec<String>, other: &Other)
    ensures
        views(final(params)@) == views(old(params)@) + other_params(*other),
{
    let ghost start = views(params@);
    let b = bool_to_text(other.include_special_workspaces);
    push_line(params, String::from_str("--include-special-workspaces=").concat(b.as_str()));
    if other.sort_by_recent {
        push_line(params, String::from_str("--sort-recent"));
    }
    let t = switch_type_to_text(other.switch_type);
    push_line(params, String::from_str("--switch-type=").concat(t.as_str()));
    let ghost before_filters = views(params@);
    if let Some(filters) = &other.filter_by {
        let ghost flags = filters@.map_values(|x: FilterBy| filter_flag(x));
        let mut i: usize = 0;
        while i < filters.len()
            invariant
                0 <= i <= filters.len(),
                flags == filters@.map_values(|x: FilterBy| filter_flag(x)),
                views(params@) == before_filters + flags.take(i as int),
            decreases filters.len() - i,
        {
            push_line(params, filter_to_flag(filters[i]));
            assert(flags.take(i + 1) =~= flags.take(i as int).push(flags[i as int]));
            assert(before_filters + flags.take(i + 1) =~= (before_filters + flags.take(
                i as int,
            )).push(flags[i as int]));
            i = i + 1;
        }
        assert(flags.take(filters.len() as int) =~= flags);
    }
    assert(views(params@) =~= start + other_params(*other));
}

/// A Lua call that binds the keys `mods + k` to run `cmd`; with `rt` the
/// bind fires on release and lets the key through.
pub fn bind(mods: &str, k: &str, cmd: &str, rt: bool) -> (s: String)
    ensures
        s@ == bind_line(mods@, k@, cmd@, rt),
{
    let opts: &str = if rt {
        ", { release = true, transparent = true }"
    } else {
        ""
    };
    let keys: String = if mods.unicode_len() == 0 {
        String::from_str(k)
    } else {
        String::from_str(mods).concat(" + ").concat(k)
    };
    String::from_str("hl.bind('").concat(keys.as_str()).concat("', hl.dsp.exec_cmd('").concat(
        cmd,
    ).concat("')").concat(opts).concat(")")
}

/// Appends the line of a simple bind.
pub fn generate_simple(script_lines: &mut Vec<String>, current_exe: &str, simple: SimpleBindConfig)
    ensures
        views(final(script_lines)@) == views(old(script_lines)@).push(
            simple_line(current_exe@, simple),
        ),
{
    let mut params: Vec<String> = Vec::new();
    if simple.reverse {
        push_line(&mut params, String::from_str("--reverse"));
    }
    let n = int_to_text(simple.offset as i128);
    push_line(&mut params, String::from_str("--offset=").concat(n.as_str()));
    generate_other(&mut params, &simple.other);
    assert(views(params@) =~= simple_params(simple));
    let joined = join_strings(&params, " ");
    let cmd = String::from_str(current_exe).concat(" simple ").concat(joined.as_str());
    let m = modifier_to_text(simple.open.modifier);
    let line = bind(m.as_str(), simple.open.key.as_str(), cmd.as_str(), false);
    push_line(script_lines, line);
}

/// The options with which a press or hold bind opens the GUI.
fn gui_params_text(submap_name: &str, reverse: &Reverse, other: &Other) -> (s: String)
    ensures
        s@ == join(gui_params(submap_name@, *reverse, *other), " "@),
{
    let mut params: Vec<String> = Vec::new();
    push_line(&mut params, String::from_str("--submap=").concat(submap_name));
    let r = reverse_to_text(reverse);
    push_line(&mut params, String::from_str("--reverse-key=").concat(r.as_str()));
    generate_other(&mut params, other);
    generate_common_gui(&mut params, other);
    assert(views(params@) =~= gui_params(submap_name@, *reverse, *other));
    join_strings(&params, " ")
}

/// The digit binds of the digits `1..=9` inside a submap.
fn digit_binds(current_exe: &str, main_mods: &str, rev_mods: &Option<String>) -> (v: Vec<String>)
    ensures
        views(v@) == digits_block(
            current_exe@,
            main_mods@,
            opt_text(*rev_mods),
            9,
        ),
{
    let ghost rv = opt_text(*rev_mods);
    let mut v: Vec<String> = Vec::new();
    let mut i: u32 = 1;
    while i <= 9
        invariant
            1 <= i <= 10,
            rv == opt_text(*rev_mods),
            views(v@) == digits_block(current_exe@, main_mods@, rv, (i - 1) as nat),
        decreases 10 - i,
    {
        let ghost before = views(v@);
        let d = int_to_text(i as i128);
        assert(int_text(i as int) == nat_text(i as nat));
        let cmd = String::from_str(current_exe).concat(" dispatch --offset=").concat(
            d.as_str(),
        ).concat(" && ").concat(current_exe).concat(" close");
        push_line(&mut v, indented(bind(main_mods, d.as_str(), cmd.as_str(), false)));
        match rev_mods {
            Some(r) => {
                let cmd = String::from_str(current_exe).concat(" dispatch --offset=").concat(
                    d.as_str(),
                ).concat(" --reverse && ").concat(current_exe).concat(" close");
                push_line(&mut v, indented(bind(r.as_str(), d.as_str(), cmd.as_str(), false)));
                assert(rv == Some(r@));
            },
            None => {},
        }
        assert(views(v@) =~= before + digit_lines(current_exe@, main_mods@, rv, i as nat));
        i = i + 1;
    }
    v
}

/// The lines of a press bind up to its submap's return bind.
fn press_head_lines(current_exe: &str, press: &PressBindConfig, submap_name: &str) -> (v: Vec<
    String,
>)
    ensures
        views(v@) == press_head(current_exe@, *press, submap_name@),
{
    let exe = current_exe;
    let mut block: Vec<String> = Vec::new();
    let params = gui_params_text(submap_name, &press.navigate.reverse, &press.other);
    let m = modifier_to_text(press.open.modifier);
    let k = press.open.key.as_str();
    let open_cmd = String::from_str(exe).concat(" gui-no-submap ").concat(params.as_str());
    push_line(&mut block, bind(m.as_str(), k, open_cmd.as_str(), false));
    push_line(
        &mut block,
        String::from_str("hl.define_submap('").concat(submap_name).concat("', function()"),
    );
    let kill = String::from_str(exe).concat(" close --kill");
    if press.close.escape {
        push_line(&mut block, indented(bind("", "escape", kill.as_str(), false)));
    }
    if press.close.close_on_reopen {
        push_line(&mut block, indented(bind(m.as_str(), k, kill.as_str(), false)));
    }
    let close = String::from_str(exe).concat(" close");
    push_line(&mut block, indented(bind("", "return", close.as_str(), false)));
    assert(views(block@) =~= press_head(exe@, *press, submap_name@));
    block
}

/// The lines of a press bind's submap after its digit binds.
fn press_tail_lines(current_exe: &str, press: &PressBindConfig) -> (v: Vec<String>)
    ensures
        views(v@) == press_tail(current_exe@, *press),
{
    let exe = current_exe;
    let mut block: Vec<String> = Vec::new();
    let fwd = press.navigate.forward.as_str();
    let dispatch = String::from_str(exe).concat(" dispatch");
    let dispatch_rev = String::from_str(exe).concat(" dispatch --reverse");
    if press.navigate.arrow_keys {
        push_line(&mut block, indented(bind("", "right", dispatch.as_str(), false)));
        push_line(&mut block, indented(bind("", "left", dispatch_rev.as_str(), false)));
    }
    push_line(&mut block, indented(bind("", fwd, dispatch.as_str(), false)));
    match &press.navigate.reverse {
        Reverse::Key(rk) => {
            push_line(&mut block, indented(bind("", rk.as_str(), dispatch_rev.as_str(), false)));
        },
        Reverse::Mod(rm) => {
            let rmt = modifier_to_text(*rm);
            push_line(&mut block, indented(bind(rmt.as_str(), fwd, dispatch_rev.as_str(), false)));
        },
    }
    push_line(&mut block, String::from_str("    hl.bind('escape', hl.dsp.submap('reset'))"));
    push_line(&mut block, String::from_str("end)\n"));
    assert(views(block@) =~= press_tail(exe@, *press));
    block
}

/// Appends the lines of a press bind with the submap `submap_name`.
pub fn generate_press(
    script_lines: &mut Vec<String>,
    current_exe: &str,
    press: PressBindConfig,
    submap_name: String,
)
    ensures
        views(final(script_lines)@) == views(old(script_lines)@) + press_lines(
            current_exe@,
            press,
            submap_name@,
        ),
{
    let ghost start = views(script_lines@);
    let head = press_head_lines(current_exe, &press, submap_name.as_str());
    push_all(script_lines, head);
    let rev_mods: Option<String> = match &press.navigate.reverse {
        Reverse::Mod(rm) => Some(modifier_to_text(*rm)),
        Reverse::Key(_) => None,
    };
    let ghost rv = opt_text(rev_mods);
    assert(rv == press_rev_mods(press.navigate.reverse));
    let digits = digit_binds(current_exe, "", &rev_mods);
    push_all(script_lines, digits);
    let tail = press_tail_lines(current_exe, &press);
    push_all(script_lines, tail);
    assert(views(script_lines@) =~= start + press_lines(current_exe@, press, submap_name@));
}

/// The text of the hold modifier and the reverse modifier held together.
fn hold_both_text(open: Modifier, rm: Modifier) -> (s: String)
    ensures
        s@ == hold_both_mods(open, rm),
{
    let m = modifier_to_text(open);
    let r = modifier_to_text(rm);
    m.concat(" ").concat(r.as_str())
}

/// The lines of a hold bind before its submap's digit binds.
fn hold_head_lines(current_exe: &str, hold: &HoldBindConfig, submap_name: &str) -> (v: Vec<String>)
    ensures
        views(v@) == hold_head(current_exe@, *hold, submap_name@),
{
    let exe = current_exe;
    let mut block: Vec<String> = Vec::new();
    let params = gui_params_text(submap_name, &hold.navigate.reverse, &hold.other);
    let m = modifier_to_text(hold.open.modifier);
    let fwd = hold.navigate.forward.as_str();
    let open_cmd = String::from_str(exe).concat(" gui-no-submap ").concat(params.as_str()).concat(
        " && ",
    ).concat(exe);
    let open_fwd = open_cmd.clone().concat(" dispatch");
    let open_rev = open_cmd.concat(" dispatch --reverse");
    push_line(&mut block, bind(m.as_str(), fwd, open_fwd.as_str(), false));
    match &hold.navigate.reverse {
        Reverse::Key(rk) => {
            push_line(&mut block, bind(m.as_str(), rk.as_str(), open_rev.as_str(), false));
        },
        Reverse::Mod(rm) => {
            let b = hold_both_text(hold.open.modifier, *rm);
            push_line(&mut block, bind(b.as_str(), fwd, open_rev.as_str(), false));
        },
    }
    push_line(
        &mut block,
        String::from_str("hl.define_submap('").concat(submap_name).concat("', function()"),
    );
    if hold.close.escape {
        let kill = String::from_str(exe).concat(" close --kill");
        push_line(&mut block, indented(bind("", "escape", kill.as_str(), false)));
    }
    let moves = hold_move_lines(exe, hold);
    push_all(&mut block, moves);
    assert(views(block@) =~= hold_head(exe@, *hold, submap_name@));
    block
}

/// The binds of a hold submap that move through the entries and that
/// close it when the modifier is released.
fn hold_move_lines(current_exe: &str, hold: &HoldBindConfig) -> (v: Vec<String>)
    ensures
        views(v@) == hold_moves(current_exe@, *hold),
{
    let exe = current_exe;
    let mut block: Vec<String> = Vec::new();
    let m = modifier_to_text(hold.open.modifier);
    let fwd = hold.navigate.forward.as_str();
    let dispatch = String::from_str(exe).concat(" dispatch");
    let dispatch_rev = String::from_str(exe).concat(" dispatch --reverse");
    let close = String::from_str(exe).concat(" close");
    push_line(&mut block, indented(bind(m.as_str(), fwd, dispatch.as_str(), false)));
    match &hold.navigate.reverse {
        Reverse::Key(rk) => {
            push_line(
                &mut block,
                indented(bind(m.as_str(), rk.as_str(), dispatch_rev.as_str(), false)),
            );
        },
        Reverse::Mod(rm) => {
            let b = hold_both_text(hold.open.modifier, *rm);
            push_line(&mut block, indented(bind(b.as_str(), fwd, dispatch_rev.as_str(), false)));
        },
    }
    push_line(&mut block, indented(bind(m.as_str(), fwd, close.as_str(), true)));
    if let Reverse::Mod(rm) = &hold.navigate.reverse {
        let b = hold_both_text(hold.open.modifier, *rm);
        push_line(&mut block, indented(bind(b.as_str(), fwd, close.as_str(), true)));
    }
    assert(views(block@) =~= hold_moves(exe@, *hold));
    block
}

/// The lines of a hold bind's submap after its digit binds.
fn hold_tail_lines(current_exe: &str, hold: &HoldBindConfig) -> (v: Vec<String>)
    ensures
        views(v@) == hold_tail(current_exe@, *hold),
{
    let exe = current_exe;
    let mut block: Vec<String> = Vec::new();
    let m = modifier_to_text(hold.open.modifier);
    if hold.navigate.arrow_keys {
        let dispatch = String::from_str(exe).concat(" dispatch");
        let dispatch_rev = String::from_str(exe).concat(" dispatch --reverse");
        push_line(&mut block, indented(bind(m.as_str(), "right", dispatch.as_str(), false)));
        push_line(&mut block, indented(bind(m.as_str(), "left", dispatch_rev.as_str(), false)));
    }
    push_line(&mut block, String::from_str("    hl.bind('escape', hl.dsp.submap('reset'))"));
    push_line(&mut block, String::from_str("end)\n"));
    assert(views(block@) =~= hold_tail(exe@, *hold));
    block
}

/// Appends the lines of a hold bind with the submap `submap_name`.
pub fn generate_hold(
    script_lines: &mut Vec<String>,
    current_exe: &str,
    hold: HoldBindConfig,
    submap_name: String,
)
    ensures
        views(final(script_lines)@) == views(old(script_lines)@) + hold_lines(
            current_exe@,
            hold,
            submap_name@,
        ),
{
    let ghost start = views(script_lines@);
    let head = hold_head_lines(current_exe, &hold, submap_name.as_str());
    push_all(script_lines, head);
    let m = modifier_to_text(hold.open.modifier);
    let both: Option<String> = match &hold.navigate.reverse {
        Reverse::Mod(rm) => Some(hold_both_text(hold.open.modifier, *rm)),
        Reverse::Key(_) => None,
    };
    let ghost rv = opt_text(both);
    assert(rv == hold_rev_mods(hold.open.modifier, hold.navigate.reverse));
    let digits = digit_binds(current_exe, m.as_str(), &both);
    push_all(script_lines, digits);
    let tail = hold_tail_lines(current_exe, &hold);
    push_all(script_lines, tail);
    assert(views(script_lines@) =~= start + hold_lines(current_exe@, hold, submap_name@));
}

/// Appends the line that starts the daemon when Hyprland starts.
pub fn generate_daemon_start(script_lines: &mut Vec<String>, general: General, current_exe: &str)
    ensures
        views(final(script_lines)@) == views(old(script_lines)@).push(
            daemon_start_line(general, current_exe@),
        ),
{
    let mut params: Vec<String> = Vec::new();
    let mut envs: Vec<String> = Vec::new();
    let b = bool_to_text(general.disable_toast);
    push_line(&mut envs, String::from_str("DISABLE_TOASTS=").concat(b.as_str()));
    push_line(
        &mut params,
        String::from_str("--size-factor=").concat(general.size_factor.as_str()),
    );
    let b = bool_to_text(general.gui.show_title);
    push_line(&mut params, String::from_str("--show-title=").concat(b.as_str()));
    let n = int_to_text(general.gui.workspaces_per_row as i128);
    push_line(&mut params, String::from_str("--workspaces-per-row=").concat(n.as_str()));
    let b = bool_to_text(general.gui.strip_html_from_title);
    push_line(&mut envs, String::from_str("REMOVE_HTML_FROM_WORKSPACE_NAME=").concat(b.as_str()));
    let n = int_to_text(general.gui.icon_size as i128);
    push_line(&mut envs, String::from_str("ICON_SIZE=").concat(n.as_str()));
    let b = bool_to_text(general.gui.show_default_icon);
    push_line(&mut envs, String::from_str("SHOW_DEFAULT_ICON=").concat(b.as_str()));
    if let Some(custom_css_path) = &general.custom_css_path {
        push_line(
            &mut params,
            String::from_str("--custom-css=").concat(custom_css_path.as_str()),
        );
    }
    assert(views(envs@) =~= daemon_envs(general));
    assert(views(params@) =~= daemon_params(general));
    let e = join_strings(&envs, " ");
    let p = join_strings(&params, " ");
    let line = String::from_str("hl.on('init', function() hl.dispatch(hl.dsp.exec_cmd('").concat(
        e.as_str(),
    ).concat(" ").concat(current_exe).concat(" init ").concat(p.as_str()).concat(
        "')) end)\n",
    );
    push_line(script_lines, line);
}

/// Picks a number uniformly from `lo..=hi` with the thread-local random
/// generator: `rand::rng().random_range(lo..=hi)`, which never returns a
/// number outside the range. It panics on an empty range, which `requires`
/// rules out, and when the system's random source fails to seed the
/// thread-local generator, which no input causes and no clause covers.
#[verifier::external_body]
fn random_in_range(lo: u32, hi: u32) -> (r: u32)
    requires
        lo <= hi,
    ensures
        lo <= r <= hi,
{
    rand::rng().random_range(lo..=hi)
}

/// The name of the submap of the bind at `index`, for the run id `id`.
fn submap_name_for(rand_id: u32, index: usize) -> (s: String)
    ensures
        s@ == bind_submap_name(rand_id as int, index as nat),
{
    let id = int_to_text(rand_id as i128);
    let ix = int_to_text(index as i128);
    assert(int_text(index as int) == nat_text(index as nat));
    String::from_str("hyprswitch-").concat(id.as_str()).concat("-").concat(ix.as_str())
}

/// The lines of the script of `config` for the run id `rand_id`: the line
/// that starts the daemon, then the lines of each bind in order, the bind
/// at index `i` with the submap `hyprswitch-<rand_id>-<i>`.
#[verifier::spinoff_prover]
#[verifier::rlimit(40)]
pub fn binds_and_submaps_with_id(current_exe: &str, config: Config, rand_id: u32) -> (lines: Vec<
    String,
>)
    ensures
        views(lines@) == script_lines(current_exe@, config, rand_id as int),
{
    let mut script_lines: Vec<String> = Vec::new();
    let ghost all = config.binds@;
    generate_daemon_start(&mut script_lines, config.general, current_exe);
    let mut rest = config.binds;
    let n = rest.len();
    let mut i: usize = 0;
    while i < n
        invariant
            n == all.len(),
            0 <= i <= n,
            rest@ == all.skip(i as int),
            views(script_lines@) == seq![daemon_start_line(config.general, current_exe@)]
                + binds_lines(current_exe@, all, rand_id as int, i as nat),
        decreases n - i,
    {
        let ghost before = views(script_lines@);
        let b = rest.remove(0);
        assert(b == all[i as int]);
        let submap_name = submap_name_for(rand_id, i);
        match b {
            Bind::Press(press) => generate_press(&mut script_lines, current_exe, press, submap_name),
            Bind::Hold(hold) => generate_hold(&mut script_lines, current_exe, hold, submap_name),
            Bind::Simple(simple) => generate_simple(&mut script_lines, current_exe, simple),
        }
        assert(rest@ =~= all.skip(i + 1));
        assert(views(script_lines@) =~= before + bind_block(
            current_exe@,
            all[i as int],
            bind_submap_name(rand_id as int, i as nat),
        ));
        i = i + 1;
    }
    script_lines
}

/// The lines of the Hyprland script of `config`: the line that starts the
/// daemon with the general settings, then the binds of each configured
/// switcher. Press and hold binds get a submap each, named
/// `hyprswitch-<id>-<index>` with one random `id` from `10..=99` for the run.
pub fn create_binds_and_submaps(current_exe: &str, config: Config) -> (lines: Vec<String>)
    ensures
        exists|id: int| 10 <= id <= 99 && views(lines@) == script_lines(current_exe@, config, id),
{
    let rand_id = random_in_range(10, 99);
    binds_and_submaps_with_id(current_exe, config, rand_id)
}

/// Each bind of a script has a submap name of its own: the names of two
/// binds at different indices differ, whatever the run id.
pub proof fn lemma_submap_names_distinct(id: int, i: nat, j: nat)
    requires
        i != j,
    ensures
        bind_submap_name(id, i) != bind_submap_name(id, j),
{
    let p = "hyprswitch-"@ + int_text(id) + "-"@;
    let a = bind_submap_name(id, i);
    let b = bind_submap_name(id, j);
    assert(a =~= p + nat_text(i));
    assert(b =~= p + nat_text(j));
    if a == b {
        assert((p + nat_text(i)).subrange(p.len() as int, a.len() as int) =~= nat_text(i));
        assert((p + nat_text(j)).subrange(p.len() as int, b.len() as int) =~= nat_text(j));
        lemma_nat_text_injective(i, j);
    }
}

/// Every press bind's submap ends by binding escape to leave it, then
/// closes its definition; its definition opens on the second line.
pub proof fn lemma_press_submap_can_be_left(exe: Seq<char>, press: PressBindConfig, name: Seq<char>)
    ensures
        press_lines(exe, press, name).len() >= 4,
        press_lines(exe, press, name)[1] == define_line(name),
        press_lines(exe, press, name).last() == end_line(),
        press_lines(exe, press, name)[press_lines(exe, press, name).len() - 2] == reset_line(),
{
    let l = press_lines(exe, press, name);
    let head = press_head(exe, press, name);
    let tail = press_tail(exe, press);
    assert(head[1] == define_line(name));
    assert(l[1] == head[1]);
    assert(tail[tail.len() - 1] == end_line());
    assert(tail[tail.len() - 2] == reset_line());
    assert(l[l.len() - 1] == tail[tail.len() - 1]);
    assert(l[l.len() - 2] == tail[tail.len() - 2]);
}

/// Every hold bind's submap ends by binding escape to leave it, then
/// closes its definition; its definition opens on the third line.
pub proof fn lemma_hold_submap_can_be_left(exe: Seq<char>, hold: HoldBindConfig, name: Seq<char>)
    ensures
        hold_lines(exe, hold, name).len() >= 5,
        hold_lines(exe, hold, name)[2] == define_line(name),
        hold_lines(exe, hold, name).last() == end_line(),
        hold_lines(exe, hold, name)[hold_lines(exe, hold, name).len() - 2] == reset_line(),
{
    let l = hold_lines(exe, hold, name);
    let head = hold_head(exe, hold, name);
    let tail = hold_tail(exe, hold);
    assert(head[2] == define_line(name));
    assert(l[2] == head[2]);
    assert(tail[tail.len() - 1] == end_line());
    assert(tail[tail.len() - 2] == reset_line());
    assert(l[l.len() - 1] == tail[tail.len() - 1]);
    assert(l[l.len() - 2] == tail[tail.len() - 2]);
}

/// Exporting two non-empty runs of lines one after the other gives their
/// two exports with a newline between them.
pub proof fn lemma_export_concat(a: Seq<Seq<char>>, b: Seq<Seq<char>>)
    requires
        a.len() > 0,
        b.len() > 0,
    ensures
        join(a + b, "\n"@) == join(a, "\n"@) + "\n"@ + join(b, "\n"@),
{
    lemma_join_concat(a, b, "\n"@);
}

/// Splitting an exported script at its newlines gives back its lines,
/// where no line holds a newline of its own.
pub proof fn lemma_export_splits_back(list: Seq<Seq<char>>)
    requires
        list.len() > 0,
        forall|i: int| 0 <= i < list.len() ==> !(#[trigger] list[i]).contains('\n'),
    ensures
        split_at_char(join(list, "\n"@), '\n') == list,
{
    reveal_strlit("\n");
    assert("\n"@ =~= seq!['\n']);
    lemma_split_join(list, '\n');
}

/// The daemon's start line sets `DISABLE_TOASTS` first, to the config's
/// `disable_toast`.
pub proof fn lemma_daemon_line_sets_disable_toasts(general: General, exe: Seq<char>)
    ensures
        starts_with(
            daemon_start_line(general, exe),
            "hl.on('init', function() hl.dispatch(hl.dsp.exec_cmd('"@ + "DISABLE_TOASTS="@
                + bool_text(general.disable_toast),
        ),
{
    let p = "hl.on('init', function() hl.dispatch(hl.dsp.exec_cmd('"@;
    let envs = daemon_envs(general);
    let e0 = "DISABLE_TOASTS="@ + bool_text(general.disable_toast);
    assert(envs[0] == e0);
    lemma_join_starts_with_first(envs, " "@);
    let j = join(envs, " "@);
    let line = daemon_start_line(general, exe);
    let rest = " "@ + exe + " init "@ + join(daemon_params(general), " "@) + "')) end)\n"@;
    assert(line =~= (p + j) + rest);
    lemma_starts_with_concat(p + j, rest);
    assert(starts_with(p + j, p + e0)) by {
        assert((p + j).subrange(0, (p + e0).len() as int) =~= p + e0) by {
            assert forall|i: int| 0 <= i < (p + e0).len() implies (p + j)[i] == (p + e0)[i] by {
                if i >= p.len() {
                    assert(j.subrange(0, e0.len() as int)[i - p.len()] == e0[i - p.len()]);
                }
            }
        }
    }
    lemma_starts_with_trans(line, p + j, p + e0);
    assert(p + e0 =~= p + "DISABLE_TOASTS="@ + bool_text(general.disable_toast));
}

/// Two configs whose only difference is `disable_toast` start the daemon
/// with different lines.
pub proof fn lemma_daemon_line_follows_disable_toast(g1: General, g2: General, exe: Seq<char>)
    requires
        g1.disable_toast != g2.disable_toast,
    ensures
        daemon_start_line(g1, exe) != daemon_start_line(g2, exe),
{
    lemma_daemon_line_sets_disable_toasts(g1, exe);
    lemma_daemon_line_sets_disable_toasts(g2, exe);
    reveal_strlit("true");
    reveal_strlit("false");
    let p = "hl.on('init', function() hl.dispatch(hl.dsp.exec_cmd('"@ + "DISABLE_TOASTS="@;
    let l1 = daemon_start_line(g1, exe);
    let l2 = daemon_start_line(g2, exe);
    let k = p.len() as int;
    assert((p + bool_text(g1.disable_toast))[k] == bool_text(g1.disable_toast)[0]);
    assert((p + bool_text(g2.disable_toast))[k] == bool_text(g2.disable_toast)[0]);
    assert(l1[k] == (p + bool_text(g1.disable_toast))[k]);
    assert(l2[k] == (p + bool_text(g2.disable_toast))[k]);
}

/// The first line of a press bind binds the configured open keys, the
/// open modifier and the open key, to opening the GUI.
pub proof fn lemma_press_opens_on_open_keys(exe: Seq<char>, press: PressBindConfig, name: Seq<char>)
    ensures
        starts_with(
            press_lines(exe, press, name)[0],
            "hl.bind('"@ + modifier_text(press.open.modifier) + " + "@ + press.open.key@
                + "', hl.dsp.exec_cmd('"@ + exe + " gui-no-submap "@,
        ),
{
    reveal_strlit("alt");
    reveal_strlit("ctrl");
    reveal_strlit("super");
    reveal_strlit("shift");
    let m = modifier_text(press.open.modifier);
    assert(m.len() > 0);
    let params = join(gui_params(name, press.navigate.reverse, press.other), " "@);
    let head = press_head(exe, press, name);
    let l = head[0];
    assert(press_lines(exe, press, name)[0] == l);
    let keys = m + " + "@ + press.open.key@;
    let start = "hl.bind('"@ + keys + "', hl.dsp.exec_cmd('"@;
    let cmd = exe + " gui-no-submap "@ + params;
    assert(l == start + cmd + "')"@ + ""@ + ")"@);
    assert(l =~= (start + (exe + " gui-no-submap "@)) + (params + "')"@ + ""@ + ")"@));
    lemma_starts_with_concat(start + (exe + " gui-no-submap "@), params + "')"@ + ""@ + ")"@);
    assert(start + (exe + " gui-no-submap "@) =~= "hl.bind('"@ + m + " + "@ + press.open.key@
        + "', hl.dsp.exec_cmd('"@ + exe + " gui-no-submap "@);
}

/// The line that opens the GUI of a press bind does not depend on the
/// forward key of its submap.
pub proof fn lemma_press_open_ignores_forward(
    exe: Seq<char>,
    p1: PressBindConfig,
    p2: PressBindConfig,
    name: Seq<char>,
)
    requires
        p1.open == p2.open,
        p1.navigate.reverse == p2.navigate.reverse,
        p1.other == p2.other,
    ensures
        press_lines(exe, p1, name)[0] == press_lines(exe, p2, name)[0],
{
    assert(press_head(exe, p1, name)[0] == press_lines(exe, p1, name)[0]);
    assert(press_head(exe, p2, name)[0] == press_lines(exe, p2, name)[0]);
}

/// The modifiers of the bind of a press bind's submap that switches
/// backwards.
pub open spec fn press_reverse_mods(press: PressBindConfig) -> Seq<char> {
    match press.navigate.reverse {
        Reverse::Key(_) => ""@,
        Reverse::Mod(rm) => modifier_text(rm),
    }
}

/// The key of the bind of a press bind's submap that switches backwards.
pub open spec fn press_reverse_key(press: PressBindConfig) -> Seq<char> {
    match press.navigate.reverse {
        Reverse::Key(rk) => rk@,
        Reverse::Mod(_) => press.navigate.forward@,
    }
}

/// Inside a press bind's submap the forward key switches forwards, and the
/// reverse keys run the same command followed by ` --reverse`; these are
/// the two binds before the reset bind.
pub proof fn lemma_press_moves_both_ways(exe: Seq<char>, press: PressBindConfig, name: Seq<char>)
    ensures
        ({
            let l = press_lines(exe, press, name);
            &&& l.len() >= 4
            &&& l[l.len() - 4] == indent(bind_line(""@, press.navigate.forward@, exe + " dispatch"@, false))
            &&& l[l.len() - 3] == indent(
                bind_line(
                    press_reverse_mods(press),
                    press_reverse_key(press),
                    exe + " dispatch"@ + " --reverse"@,
                    false,
                ),
            )
        }),
{
    reveal_strlit(" dispatch");
    reveal_strlit(" --reverse");
    reveal_strlit(" dispatch --reverse");
    assert(exe + " dispatch --reverse"@ =~= exe + " dispatch"@ + " --reverse"@);
    let l = press_lines(exe, press, name);
    let t = press_tail(exe, press);
    assert(l[l.len() - 4] == t[t.len() - 4]);
    assert(l[l.len() - 3] == t[t.len() - 3]);
}

/// A simple bind binds its open modifier and key to a switch without the
/// GUI.
pub proof fn lemma_simple_opens_on_open_keys(exe: Seq<char>, simple: SimpleBindConfig)
    ensures
        starts_with(
            simple_line(exe, simple),
            "hl.bind('"@ + modifier_text(simple.open.modifier) + " + "@ + simple.open.key@
                + "', hl.dsp.exec_cmd('"@ + exe + " simple "@,
        ),
{
    reveal_strlit("alt");
    reveal_strlit("ctrl");
    reveal_strlit("super");
    reveal_strlit("shift");
    let m = modifier_text(simple.open.modifier);
    assert(m.len() > 0);
    let params = join(simple_params(simple), " "@);
    let l = simple_line(exe, simple);
    let start = "hl.bind('"@ + (m + " + "@ + simple.open.key@) + "', hl.dsp.exec_cmd('"@;
    assert(l == start + (exe + " simple "@ + params) + "')"@ + ""@ + ")"@);
    assert(l =~= (start + (exe + " simple "@)) + (params + "')"@ + ""@ + ")"@));
    lemma_starts_with_concat(start + (exe + " simple "@), params + "')"@ + ""@ + ")"@);
    assert(start + (exe + " simple "@) =~= "hl.bind('"@ + m + " + "@ + simple.open.key@
        + "', hl.dsp.exec_cmd('"@ + exe + " simple "@);
}

/// The modifiers of the binds of a hold bind that switch backwards.
pub open spec fn hold_reverse_mods(hold: HoldBindConfig) -> Seq<char> {
    match hold.navigate.reverse {
        Reverse::Key(_) => modifier_text(hold.open.modifier),
        Reverse::Mod(rm) => modifier_text(hold.open.modifier) + " "@ + modifier_text(rm),
    }
}

/// The key of the binds of a hold bind that switch backwards.
pub open spec fn hold_reverse_key(hold: HoldBindConfig) -> Seq<char> {
    match hold.navigate.reverse {
        Reverse::Key(rk) => rk@,
        Reverse::Mod(_) => hold.navigate.forward@,
    }
}

/// A hold bind opens the GUI forwards on its modifier and forward key, and
/// backwards on its reverse keys with the same command followed by
/// ` --reverse`; inside its submap the same holds of the move binds.
pub proof fn lemma_hold_reverse_opens_backwards(exe: Seq<char>, hold: HoldBindConfig, name: Seq<char>)
    ensures
        exists|cmd: Seq<char>|
            {
                &&& ends_with(cmd, " dispatch"@)
                &&& hold_lines(exe, hold, name)[0] == bind_line(
                    modifier_text(hold.open.modifier),
                    hold.navigate.forward@,
                    cmd,
                    false,
                )
                &&& hold_lines(exe, hold, name)[1] == bind_line(
                    hold_reverse_mods(hold),
                    hold_reverse_key(hold),
                    cmd + " --reverse"@,
                    false,
                )
            },
        ({
            let k: int = if hold.close.escape {
                4
            } else {
                3
            };
            &&& hold_lines(exe, hold, name)[k] == indent(
                bind_line(
                    modifier_text(hold.open.modifier),
                    hold.navigate.forward@,
                    exe + " dispatch"@,
                    false,
                ),
            )
            &&& hold_lines(exe, hold, name)[k + 1] == indent(
                bind_line(
                    hold_reverse_mods(hold),
                    hold_reverse_key(hold),
                    exe + " dispatch"@ + " --reverse"@,
                    false,
                ),
            )
        }),
{
    reveal_strlit(" dispatch");
    reveal_strlit(" --reverse");
    reveal_strlit(" dispatch --reverse");
    assert(" dispatch --reverse"@ =~= " dispatch"@ + " --reverse"@);
    let params = join(gui_params(name, hold.navigate.reverse, hold.other), " "@);
    let open_cmd = exe + " gui-no-submap "@ + params + " && "@ + exe;
    let cmd = open_cmd + " dispatch"@;
    assert(open_cmd + " dispatch --reverse"@ =~= cmd + " --reverse"@);
    assert(exe + " dispatch --reverse"@ =~= exe + " dispatch"@ + " --reverse"@);
    assert(cmd.subrange(cmd.len() - 9, cmd.len() as int) =~= " dispatch"@);
    let l = hold_lines(exe, hold, name);
    let head = hold_head(exe, hold, name);
    let moves = hold_moves(exe, hold);
    let k: int = if hold.close.escape {
        4
    } else {
        3
    };
    assert(l[0] == head[0]);
    assert(l[1] == head[1]);
    assert(head[k] == moves[0]);
    assert(head[k + 1] == moves[1]);
    assert(l[k] == head[k]);
    assert(l[k + 1] == head[k + 1]);
    assert(ends_with(cmd, " dispatch"@));
    assert(l[0] == bind_line(modifier_text(hold.open.modifier), hold.navigate.forward@, cmd, false));
    assert(l[1] == bind_line(hold_reverse_mods(hold), hold_reverse_key(hold), cmd + " --reverse"@, false));
}

/// The script of a config starts with the line that starts the daemon.
pub proof fn lemma_script_starts_daemon(exe: Seq<char>, config: Config, id: int)
    ensures
        script_lines(exe, config, id).len() >= 1,
        script_lines(exe, config, id)[0] == daemon_start_line(config.general, exe),
{
}

/// Joins the lines of a script into one text, a newline between each two.
pub fn export(list: Vec<String>) -> (s: String)
    ensures
        s@ == join(views(list@), "\n"@),
{
    join_strings(&list, "\n")
}

} // verus!
