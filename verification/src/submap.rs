//! The submap that the daemon enters while the GUI is open: its binds, its
//! Lua definition, and the scripts that enter and leave it.
use vstd::prelude::*;
use vstd::string::*;

use crate::generate::bind;
use crate::generate::bind_line;
use crate::text::{
    ends_with, int_text, int_to_text, join, join_strings, lemma_trim_end_leaves_no_suffix, nat_text,
    push_line, trim_end, trim_end_text, views,
};

verus! {

/// The modifier key that opens the GUI, with its side.
#[derive(Clone, Copy, Debug, PartialEq, Eq, Structural)]
pub enum ModKey {
    SuperL,
    SuperR,
    AltL,
    AltR,
    CtrlL,
    CtrlR,
    ShiftL,
    ShiftR,
}

/// How a reverse switch is bound: `Mod(m)` holds the modifier `m` together
/// with the key, `Key(k)` uses the key `k` of its own.
#[derive(Clone, Debug)]
pub enum ReverseKey {
    Mod(String),
    Key(String),
}

/// When the GUI closes: on a key press (`Default`), or when the modifier
/// key is released.
#[derive(Clone, Copy, Debug, PartialEq, Eq, Structural)]
pub enum CloseType {
    Default,
    ModKeyRelease,
}

/// The modifier name Hyprland gives a modifier key, whichever its side.
pub open spec fn mod_name(mod_key: ModKey) -> Seq<char> {
    match mod_key {
        ModKey::SuperL | ModKey::SuperR => "SUPER"@,
        ModKey::AltL | ModKey::AltR => "ALT"@,
        ModKey::CtrlL | ModKey::CtrlR => "CTRL"@,
        ModKey::ShiftL | ModKey::ShiftR => "SHIFT"@,
    }
}

/// The key name of a modifier key, with its side.
pub open spec fn mod_key_text(mod_key: ModKey) -> Seq<char> {
    match mod_key {
        ModKey::SuperL => "super_l"@,
        ModKey::SuperR => "super_r"@,
        ModKey::AltL => "alt_l"@,
        ModKey::AltR => "alt_r"@,
        ModKey::CtrlL => "ctrl_l"@,
        ModKey::CtrlR => "ctrl_r"@,
        ModKey::ShiftL => "shift_l"@,
        ModKey::ShiftR => "shift_r"@,
    }
}

/// The modifiers held with the main modifier for a reverse switch, if the
/// reverse switch is a modifier.
pub open spec fn rev_mod(reverse_key: ReverseKey) -> Option<Seq<char>> {
    match reverse_key {
        ReverseKey::Mod(m) => Some(m@),
        ReverseKey::Key(_) => None,
    }
}

/// The binds that keep switching while the GUI is open, or that close it.
pub open spec fn repeat_binds(
    exe: Seq<char>,
    main: Seq<char>,
    key: Seq<char>,
    reverse_key: ReverseKey,
    close: CloseType,
) -> Seq<Seq<char>> {
    match close {
        CloseType::ModKeyRelease => seq![
            bind_line(main, key, exe + " dispatch"@, false),
            match reverse_key {
                ReverseKey::Mod(m) => bind_line(main + " "@ + m@, key, exe + " dispatch -r"@, false),
                ReverseKey::Key(k) => bind_line(main, k@, exe + " dispatch -r"@, false),
            },
        ],
        CloseType::Default => seq![bind_line(main, key, exe + " close --kill"@, false)],
    }
}

/// The binds that close the GUI and switch.
pub open spec fn close_binds(
    exe: Seq<char>,
    mod_key: ModKey,
    reverse_key: ReverseKey,
    close: CloseType,
) -> Seq<Seq<char>> {
    let main = mod_name(mod_key);
    match close {
        CloseType::ModKeyRelease => seq![
            bind_line(main, mod_key_text(mod_key), exe + " close"@, true),
        ] + match reverse_key {
            ReverseKey::Mod(m) => seq![
                bind_line(main + " "@ + m@, mod_key_text(mod_key), exe + " close"@, true),
            ],
            ReverseKey::Key(_) => Seq::empty(),
        },
        CloseType::Default => seq![bind_line(""@, "return"@, exe + " close"@, false)],
    }
}

/// The command that jumps to the entry at offset `d`, backwards with `rev`,
/// and closes the GUI after it with `close_after`.
pub open spec fn jump_cmd(exe: Seq<char>, d: nat, rev: bool, close_after: bool) -> Seq<char> {
    let base = exe + " dispatch -o="@ + nat_text(d);
    let dir = if rev {
        base + " -r"@
    } else {
        base
    };
    if close_after {
        dir + " && "@ + exe + " close"@
    } else {
        dir
    }
}

/// The binds of the digit `d`.
pub open spec fn jump_binds(
    exe: Seq<char>,
    main: Seq<char>,
    reverse_key: ReverseKey,
    close: CloseType,
    d: nat,
) -> Seq<Seq<char>> {
    let release = close == CloseType::ModKeyRelease;
    let fwd_mods = if release {
        main
    } else {
        ""@
    };
    seq![bind_line(fwd_mods, nat_text(d), jump_cmd(exe, d, false, !release), false)]
        + match reverse_key {
        ReverseKey::Mod(m) => seq![
            bind_line(
                if release {
                    main + " "@ + m@
                } else {
                    m@
                },
                nat_text(d),
                jump_cmd(exe, d, true, !release),
                false,
            ),
        ],
        ReverseKey::Key(_) => Seq::empty(),
    }
}

/// The digit binds of the digits `1..=n`, in order.
pub open spec fn jump_block(
    exe: Seq<char>,
    main: Seq<char>,
    reverse_key: ReverseKey,
    close: CloseType,
    n: nat,
) -> Seq<Seq<char>>
    decreases n,
{
    if n == 0 {
        Seq::empty()
    } else {
        jump_block(exe, main, reverse_key, close, (n - 1) as nat) + jump_binds(
            exe,
            main,
            reverse_key,
            close,
            n,
        )
    }
}

/// The arrow-key binds.
pub open spec fn arrow_binds(exe: Seq<char>, main: Seq<char>, close: CloseType) -> Seq<Seq<char>> {
    let mods = if close == CloseType::ModKeyRelease {
        main
    } else {
        ""@
    };
    seq![
        bind_line(mods, "right"@, exe + " dispatch"@, false),
        bind_line(mods, "left"@, exe + " dispatch -r"@, false),
    ]
}

/// The bind that leaves the submap on escape.
pub open spec fn submap_reset_bind() -> Seq<char> {
    "hl.bind('escape', hl.dsp.submap('reset'))"@
}

/// Every bind of the submap, in order.
pub open spec fn submap_bind_lines(
    exe: Seq<char>,
    mod_key: ModKey,
    key: Seq<char>,
    reverse_key: ReverseKey,
    close: CloseType,
) -> Seq<Seq<char>> {
    let main = mod_name(mod_key);
    seq![
        bind_line(""@, "escape"@, exe + " close --kill"@, false),
        bind_line(main, "escape"@, exe + " close --kill"@, false),
    ] + repeat_binds(exe, main, key, reverse_key, close) + close_binds(
        exe,
        mod_key,
        reverse_key,
        close,
    ) + jump_block(exe, main, reverse_key, close, 9) + arrow_binds(exe, main, close) + seq![
        submap_reset_bind(),
    ]
}

/// The Lua definition of the submap `name` with the binds `binds`.
pub open spec fn submap_definition(name: Seq<char>, binds: Seq<Seq<char>>) -> Seq<char> {
    "hl.define_submap('"@ + name + "', function()\n    "@ + join(binds, "\n    "@) + "\nend)"@
}

/// The Lua call that enters the submap `name`.
pub open spec fn submap_activation(name: Seq<char>) -> Seq<char> {
    "hl.dispatch(hl.dsp.submap('"@ + name + "'))"@
}

/// The name of a generated submap with the random number `n`.
pub open spec fn submap_name(n: int) -> Seq<char> {
    "hyprswitch-"@ + int_text(n)
}

/// The path of the running executable, without the suffix that Linux adds
/// to the path of a deleted binary.
pub open spec fn exe_path_text(path: Seq<char>) -> Seq<char> {
    trim_end(path, " (deleted)"@)
}

/// The path of the executable that the submap's binds run never ends with
/// ` (deleted)`.
pub proof fn lemma_exe_path_is_clean(path: Seq<char>)
    ensures
        !ends_with(exe_path_text(path), " (deleted)"@),
{
    reveal_strlit(" (deleted)");
    lemma_trim_end_leaves_no_suffix(path, " (deleted)"@);
}

/// Whether a modifier key is the one on the left.
pub open spec fn is_left_key(mod_key: ModKey) -> bool {
    mod_key == ModKey::SuperL || mod_key == ModKey::AltL || mod_key == ModKey::CtrlL || mod_key
        == ModKey::ShiftL
}

/// `s` with its ASCII capital letters made small.
pub open spec fn ascii_lower(s: Seq<char>) -> Seq<char> {
    s.map_values(|c: char| if 'A' <= c <= 'Z' { ((c as u32) + 32) as char } else { c })
}

/// The key name of a modifier key is its modifier's name in small letters
/// followed by the side: `_l` for a left key, `_r` for a right one.
pub proof fn lemma_mod_key_text_names_the_key(mod_key: ModKey)
    ensures
        mod_key_text(mod_key) == ascii_lower(mod_name(mod_key)) + (if is_left_key(mod_key) {
            seq!['_', 'l']
        } else {
            seq!['_', 'r']
        }),
{
    reveal_strlit("SUPER");
    reveal_strlit("ALT");
    reveal_strlit("CTRL");
    reveal_strlit("SHIFT");
    reveal_strlit("super_l");
    reveal_strlit("super_r");
    reveal_strlit("alt_l");
    reveal_strlit("alt_r");
    reveal_strlit("ctrl_l");
    reveal_strlit("ctrl_r");
    reveal_strlit("shift_l");
    reveal_strlit("shift_r");
    let l = if is_left_key(mod_key) {
        seq!['_', 'l']
    } else {
        seq!['_', 'r']
    };
    assert(mod_key_text(mod_key) =~= ascii_lower(mod_name(mod_key)) + l);
}

/// Distinct modifier keys have distinct key names.
pub proof fn lemma_mod_key_text_injective(a: ModKey, b: ModKey)
    requires
        a != b,
    ensures
        mod_key_text(a) != mod_key_text(b),
{
    lemma_mod_key_text_names_the_key(a);
    lemma_mod_key_text_names_the_key(b);
    reveal_strlit("SUPER");
    reveal_strlit("ALT");
    reveal_strlit("CTRL");
    reveal_strlit("SHIFT");
    let ta = mod_key_text(a);
    let tb = mod_key_text(b);
    if ta == tb {
        assert(ta.last() == tb.last());
        assert(ta.len() == tb.len());
        assert(ta[0] == tb[0]);
        assert(ta[1] == tb[1]);
    }
}

/// The left and right modifier keys of one kind give the same modifier.
pub proof fn lemma_mod_name_ignores_side()
    ensures
        mod_name(ModKey::SuperL) == mod_name(ModKey::SuperR),
        mod_name(ModKey::AltL) == mod_name(ModKey::AltR),
        mod_name(ModKey::CtrlL) == mod_name(ModKey::CtrlR),
        mod_name(ModKey::ShiftL) == mod_name(ModKey::ShiftR),
{
}

/// The modifier name Hyprland gives a modifier key: left and right keys
/// of one kind have the same name.
pub fn get_mod_from_mod_key(mod_key: ModKey) -> (s: &'static str)
    ensures
        s@ == mod_name(mod_key),
{
    match mod_key {
        ModKey::SuperL | ModKey::SuperR => "SUPER",
        ModKey::AltL | ModKey::AltR => "ALT",
        ModKey::CtrlL | ModKey::CtrlR => "CTRL",
        ModKey::ShiftL | ModKey::ShiftR => "SHIFT",
    }
}

/// The key name of a modifier key, as its `Display` writes it.
pub fn mod_key_to_text(mod_key: ModKey) -> (s: String)
    ensures
        s@ == mod_key_text(mod_key),
{
    match mod_key {
        ModKey::SuperL => String::from_str("super_l"),
        ModKey::SuperR => String::from_str("super_r"),
        ModKey::AltL => String::from_str("alt_l"),
        ModKey::AltR => String::from_str("alt_r"),
        ModKey::CtrlL => String::from_str("ctrl_l"),
        ModKey::CtrlR => String::from_str("ctrl_r"),
        ModKey::ShiftL => String::from_str("shift_l"),
        ModKey::ShiftR => String::from_str("shift_r"),
    }
}

/// The command that jumps to the entry at offset `d`.
fn jump_cmd_text(exe: &str, d: u32, rev: bool, close_after: bool) -> (s: String)
    ensures
        s@ == jump_cmd(exe@, d as nat, rev, close_after),
{
    let t = int_to_text(d as i128);
    assert(int_text(d as int) == nat_text(d as nat));
    let base = String::from_str(exe).concat(" dispatch -o=").concat(t.as_str());
    let dir = if rev {
        base.concat(" -r")
    } else {
        base
    };
    if close_after {
        dir.concat(" && ").concat(exe).concat(" close")
    } else {
        dir
    }
}

/// The digit binds of the digits `1..=9`.
fn jump_bind_lines(
    lines: &mut Vec<String>,
    exe: &str,
    main: &str,
    reverse_key: &ReverseKey,
    close: CloseType,
)
    ensures
        views(final(lines)@) == views(old(lines)@) + jump_block(
            exe@,
            main@,
            *reverse_key,
            close,
            9,
        ),
{
    let ghost start = views(lines@);
    let release = close == CloseType::ModKeyRelease;
    let mut i: u32 = 1;
    while i <= 9
        invariant
            1 <= i <= 10,
            release == (close == CloseType::ModKeyRelease),
            views(lines@) == start + jump_block(exe@, main@, *reverse_key, close, (i - 1) as nat),
        decreases 10 - i,
    {
        let ghost before = views(lines@);
        let d = int_to_text(i as i128);
        assert(int_text(i as int) == nat_text(i as nat));
        let fwd_mods: &str = if release {
            main
        } else {
            ""
        };
        let cmd = jump_cmd_text(exe, i, false, !release);
        push_line(lines, bind(fwd_mods, d.as_str(), cmd.as_str(), false));
        match reverse_key {
            ReverseKey::Mod(m) => {
                let mods = if release {
                    String::from_str(main).concat(" ").concat(m.as_str())
                } else {
                    m.clone()
                };
                let cmd = jump_cmd_text(exe, i, true, !release);
                push_line(lines, bind(mods.as_str(), d.as_str(), cmd.as_str(), false));
            },
            ReverseKey::Key(_) => {},
        }
        assert(views(lines@) =~= before + jump_binds(exe@, main@, *reverse_key, close, i as nat));
        i = i + 1;
    }
}

/// Every bind of the submap for the modifier key `mod_key`, the key `key`,
/// the reverse switch `reverse_key` and the close type `close`. Escape
/// always closes the GUI and kills the switch, with or without the
/// modifier, and the last bind leaves the submap on escape.
pub fn submap_binds(
    current_exe: &str,
    mod_key: ModKey,
    key: &str,
    reverse_key: &ReverseKey,
    close: CloseType,
) -> (binds: Vec<String>)
    ensures
        views(binds@) == submap_bind_lines(current_exe@, mod_key, key@, *reverse_key, close),
        views(binds@)[0] == bind_line(""@, "escape"@, current_exe@ + " close --kill"@, false),
        views(binds@).last() == submap_reset_bind(),
{
    let exe = current_exe;
    let main = get_mod_from_mod_key(mod_key);
    let mut lua_binds: Vec<String> = Vec::new();
    let kill = String::from_str(exe).concat(" close --kill");
    let dispatch = String::from_str(exe).concat(" dispatch");
    let dispatch_rev = String::from_str(exe).concat(" dispatch -r");
    let close_cmd = String::from_str(exe).concat(" close");
    push_line(&mut lua_binds, bind("", "escape", kill.as_str(), false));
    push_line(&mut lua_binds, bind(main, "escape", kill.as_str(), false));
    let ghost after_escape = views(lua_binds@);
    match close {
        CloseType::ModKeyRelease => {
            push_line(&mut lua_binds, bind(main, key, dispatch.as_str(), false));
            match reverse_key {
                ReverseKey::Mod(m) => {
                    let mods = String::from_str(main).concat(" ").concat(m.as_str());
                    push_line(&mut lua_binds, bind(mods.as_str(), key, dispatch_rev.as_str(), false));
                },
                ReverseKey::Key(rkey) => {
                    push_line(
                        &mut lua_binds,
                        bind(main, rkey.as_str(), dispatch_rev.as_str(), false),
                    );
                },
            }
        },
        CloseType::Default => {
            push_line(&mut lua_binds, bind(main, key, kill.as_str(), false));
        },
    }
    let ghost after_repeat = views(lua_binds@);
    assert(after_repeat =~= after_escape + repeat_binds(exe@, main@, key@, *reverse_key, close));
    match close {
        CloseType::ModKeyRelease => {
            let mk = mod_key_to_text(mod_key);
            push_line(&mut lua_binds, bind(main, mk.as_str(), close_cmd.as_str(), true));
            if let ReverseKey::Mod(m) = reverse_key {
                let mods = String::from_str(main).concat(" ").concat(m.as_str());
                push_line(&mut lua_binds, bind(mods.as_str(), mk.as_str(), close_cmd.as_str(), true));
            }
        },
        CloseType::Default => {
            push_line(&mut lua_binds, bind("", "return", close_cmd.as_str(), false));
        },
    }
    let ghost after_close = views(lua_binds@);
    assert(after_close =~= after_repeat + close_binds(exe@, mod_key, *reverse_key, close));
    jump_bind_lines(&mut lua_binds, exe, main, reverse_key, close);
    let ghost after_jump = views(lua_binds@);
    let arrow_mods: &str = if close == CloseType::ModKeyRelease {
        main
    } else {
        ""
    };
    push_line(&mut lua_binds, bind(arrow_mods, "right", dispatch.as_str(), false));
    push_line(&mut lua_binds, bind(arrow_mods, "left", dispatch_rev.as_str(), false));
    assert(views(lua_binds@) =~= after_jump + arrow_binds(exe@, main@, close));
    push_line(&mut lua_binds, String::from_str("hl.bind('escape', hl.dsp.submap('reset'))"));
    assert(views(lua_binds@) =~= submap_bind_lines(exe@, mod_key, key@, *reverse_key, close));
    lua_binds
}

/// The Lua definition of the submap `name` with the binds `binds`, one
/// indented bind per line.
pub fn submap_definition_script(name: &str, binds: &Vec<String>) -> (s: String)
    ensures
        s@ == submap_definition(name@, views(binds@)),
{
    let body = join_strings(binds, "\n    ");
    String::from_str("hl.define_submap('").concat(name).concat("', function()\n    ").concat(
        body.as_str(),
    ).concat("\nend)")
}

/// The Lua call that enters the submap `submap_name`.
pub fn submap_activation_script(submap_name: &str) -> (s: String)
    ensures
        s@ == submap_activation(submap_name@),
{
    String::from_str("hl.dispatch(hl.dsp.submap('").concat(submap_name).concat("'))")
}

/// The Lua call that leaves every submap.
pub fn submap_reset_script() -> (s: String)
    ensures
        s@ == submap_activation("reset"@),
{
    submap_activation_script("reset")
}

/// A random `u16` from the thread-local generator: `rand::random::<u16>()`.
/// Any `u16` may come back, so nothing is promised of it. It panics only
/// when the system's random source fails to seed the thread-local
/// generator, which no input causes.
#[verifier::external_body]
fn random_u16() -> u16 {
    rand::random::<u16>()
}

/// A fresh submap name, `hyprswitch-<n>` for a random `u16` `n`.
pub fn generate_submap_name() -> (s: String)
    ensures
        exists|n: int| 0 <= n <= u16::MAX && s@ == submap_name(n),
{
    let n = random_u16();
    submap_name_for(n)
}

/// The submap name for the number `n`.
pub fn submap_name_for(n: u16) -> (s: String)
    ensures
        s@ == submap_name(n as int),
{
    let t = int_to_text(n as i128);
    String::from_str("hyprswitch-").concat(t.as_str())
}

/// The path of the running executable without the trailing ` (deleted)`
/// that Linux adds when the binary was replaced while it ran.
pub fn exe_path(path: &str) -> (s: String)
    ensures
        s@ == exe_path_text(path@),
{
    trim_end_text(path, " (deleted)")
}

/// The two Lua scripts of a submap named `name`: its definition and the
/// call that enters it.
pub fn submap_scripts_named(
    name: &str,
    current_exe: &str,
    mod_key: ModKey,
    key: &str,
    reverse_key: &ReverseKey,
    close: CloseType,
) -> (scripts: (String, String))
    ensures
        scripts.0@ == submap_definition(
            name@,
            submap_bind_lines(exe_path_text(current_exe@), mod_key, key@, *reverse_key, close),
        ),
        scripts.1@ == submap_activation(name@),
{
    let exe = exe_path(current_exe);
    let binds = submap_binds(exe.as_str(), mod_key, key, reverse_key, close);
    (submap_definition_script(name, &binds), submap_activation_script(name))
}

/// The two Lua scripts that set up the switching submap: the definition
/// of a submap with a fresh random name and every bind of the switch, and
/// the call that enters it. `current_exe` is the path of the running
/// executable.
pub fn generate_submap(
    current_exe: &str,
    mod_key: ModKey,
    key: String,
    reverse_key: ReverseKey,
    close: CloseType,
) -> (scripts: (String, String))
    ensures
        exists|n: int|
            0 <= n <= u16::MAX && scripts.0@ == submap_definition(
                submap_name(n),
                submap_bind_lines(
                    exe_path_text(current_exe@),
                    mod_key,
                    key@,
                    reverse_key,
                    close,
                ),
            ) && scripts.1@ == submap_activation(submap_name(n)),
{
    let n = random_u16();
    let name = submap_name_for(n);
    submap_scripts_named(name.as_str(), current_exe, mod_key, key.as_str(), &reverse_key, close)
}

} // verus!
