//! The settings of the config file that the generated Hyprland script is
//! made from, and the text each setting is written as.
use vstd::prelude::*;
use vstd::string::*;


verus! {

/// A modifier key as the config file names it.
#[derive(Clone, Copy, Debug, PartialEq, Eq, Structural)]
pub enum Modifier {
    Alt,
    Ctrl,
    Super,
    Shift,
}

/// How a reverse switch is bound: a key of its own, or a modifier held
/// together with the forward key.
#[derive(Clone, Debug)]
pub enum Reverse {
    Key(String),
    Mod(Modifier),
}

/// What the switcher cycles through.
#[derive(Clone, Copy, Debug, PartialEq, Eq, Structural)]
pub enum SwitchType {
    Client,
    Workspace,
    Monitor,
}

/// A filter on the clients that the switcher offers.
#[derive(Clone, Copy, Debug, PartialEq, Eq, Structural)]
pub enum FilterBy {
    SameClass,
    CurrentWorkspace,
    CurrentMonitor,
}

/// Settings shared by every kind of bind.
#[derive(Clone, Debug)]
pub struct Other {
    pub max_switch_offset: u8,
    pub hide_active_window_border: bool,
    pub monitors: Option<Vec<String>>,
    pub show_workspaces_on_all_monitors: bool,
    pub include_special_workspaces: bool,
    pub sort_by_recent: bool,
    pub switch_type: SwitchType,
    pub filter_by: Option<Vec<FilterBy>>,
}

/// The key combination that opens the switcher: a modifier and a key.
/// `key` is the key's name as Hyprland's bind takes it.
#[derive(Clone, Debug)]
pub struct OpenKeys {
    pub modifier: Modifier,
    pub key: String,
}

/// The modifier that is held while a hold bind is in use.
#[derive(Clone, Copy, Debug)]
pub struct HoldOpen {
    pub modifier: Modifier,
}

/// How to move through the offered entries.
#[derive(Clone, Debug)]
pub struct Navigate {
    pub forward: String,
    pub reverse: Reverse,
    pub arrow_keys: bool,
}

/// How a press bind is closed.
#[derive(Clone, Copy, Debug)]
pub struct PressClose {
    pub escape: bool,
    pub close_on_reopen: bool,
}

/// How a hold bind is closed.
#[derive(Clone, Copy, Debug)]
pub struct HoldClose {
    pub escape: bool,
}

/// A bind that switches at once, without the GUI.
#[derive(Clone, Debug)]
pub struct SimpleBindConfig {
    pub open: OpenKeys,
    pub reverse: bool,
    pub offset: u8,
    pub other: Other,
}

/// A bind that opens the GUI on a press and keeps it open until closed.
#[derive(Clone, Debug)]
pub struct PressBindConfig {
    pub open: OpenKeys,
    pub navigate: Navigate,
    pub close: PressClose,
    pub other: Other,
}

/// A bind that keeps the GUI open while its modifier is held.
#[derive(Clone, Debug)]
pub struct HoldBindConfig {
    pub open: HoldOpen,
    pub navigate: Navigate,
    pub close: HoldClose,
    pub other: Other,
}

/// One bind of the config file.
#[derive(Clone, Debug)]
pub enum Bind {
    Press(PressBindConfig),
    Hold(HoldBindConfig),
    Simple(SimpleBindConfig),
}

/// Settings of the GUI that the daemon is started with.
#[derive(Clone, Copy, Debug)]
pub struct GuiConfig {
    pub show_title: bool,
    pub workspaces_per_row: u8,
    pub strip_html_from_title: bool,
    pub icon_size: u32,
    pub show_default_icon: bool,
}

/// Settings of the daemon. `size_factor` holds the text of the size factor
/// as the config file's number is written.
#[derive(Clone, Debug)]
pub struct General {
    pub disable_toast: bool,
    pub size_factor: String,
    pub gui: GuiConfig,
    pub custom_css_path: Option<String>,
}

/// The whole config file.
#[derive(Clone, Debug)]
pub struct Config {
    pub general: General,
    pub binds: Vec<Bind>,
}

/// The text a modifier is written as.
pub open spec fn modifier_text(m: Modifier) -> Seq<char> {
    match m {
        Modifier::Alt => "alt"@,
        Modifier::Ctrl => "ctrl"@,
        Modifier::Super => "super"@,
        Modifier::Shift => "shift"@,
    }
}

/// The text a reverse setting is written as on the command line.
pub open spec fn reverse_text(r: Reverse) -> Seq<char> {
    match r {
        Reverse::Key(k) => "key="@ + k@,
        Reverse::Mod(m) => "mod="@ + modifier_text(m),
    }
}

/// The text a switch type is written as on the command line.
pub open spec fn switch_type_text(t: SwitchType) -> Seq<char> {
    match t {
        SwitchType::Client => "client"@,
        SwitchType::Workspace => "workspace"@,
        SwitchType::Monitor => "monitor"@,
    }
}

/// The command-line flag of a filter.
pub open spec fn filter_flag(f: FilterBy) -> Seq<char> {
    match f {
        FilterBy::CurrentMonitor => "--filter-current-monitor"@,
        FilterBy::CurrentWorkspace => "--filter-current-workspace"@,
        FilterBy::SameClass => "--filter-same-class"@,
    }
}

/// Renders a modifier.
pub fn modifier_to_text(m: Modifier) -> (s: String)
    ensures
        s@ == modifier_text(m),
{
    match m {
        Modifier::Alt => String::from_str("alt"),
        Modifier::Ctrl => String::from_str("ctrl"),
        Modifier::Super => String::from_str("super"),
        Modifier::Shift => String::from_str("shift"),
    }
}

/// Renders a reverse setting, `key=<key>` or `mod=<modifier>`.
pub fn reverse_to_text(r: &Reverse) -> (s: String)
    ensures
        s@ == reverse_text(*r),
{
    match r {
        Reverse::Key(k) => String::from_str("key=").concat(k.as_str()),
        Reverse::Mod(m) => {
            let t = modifier_to_text(*m);
            String::from_str("mod=").concat(t.as_str())
        },
    }
}

/// Renders a switch type.
pub fn switch_type_to_text(t: SwitchType) -> (s: String)
    ensures
        s@ == switch_type_text(t),
{
    match t {
        SwitchType::Client => String::from_str("client"),
        SwitchType::Workspace => String::from_str("workspace"),
        SwitchType::Monitor => String::from_str("monitor"),
    }
}

/// The command-line flag of a filter.
pub fn filter_to_flag(f: FilterBy) -> (s: String)
    ensures
        s@ == filter_flag(f),
{
    match f {
        FilterBy::CurrentMonitor => String::from_str("--filter-current-monitor"),
        FilterBy::CurrentWorkspace => String::from_str("--filter-current-workspace"),
        FilterBy::SameClass => String::from_str("--filter-same-class"),
    }
}

} // verus!
