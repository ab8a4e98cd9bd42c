//! The switch to what the GUI selected: which steps it takes for the
//! selected client, workspace or monitor, and the Hyprland commands and
//! dry-run messages of each step.
use vstd::prelude::*;
use vstd::string::*;

use crate::text::{int_text, int_to_text, strip_prefix_or_keep, strip_prefix_text, views};

verus! {

/// What the GUI has selected: a client by its address, a workspace by its
/// id, or a monitor by its id.
#[derive(Clone, Debug, PartialEq, Eq)]
pub enum Active {
    Client(String),
    Workspace(i32),
    Monitor(i128),
}

/// What the switch reads of a client: the workspace it is on, and its title.
#[derive(Clone, Debug)]
pub struct ClientData {
    pub workspace: i32,
    pub title: String,
}

/// What the switch reads of a workspace: its name.
#[derive(Clone, Debug)]
pub struct WorkspaceData {
    pub name: String,
}

/// The clients, by address, and the workspaces, by id, that Hyprland
/// reported; where a key occurs twice, the first entry counts.
#[derive(Clone, Debug)]
pub struct HyprlandData {
    pub clients: Vec<(String, ClientData)>,
    pub workspaces: Vec<(i32, WorkspaceData)>,
}

/// One step of a switch.
#[derive(Clone, Debug, PartialEq, Eq)]
pub enum SwitchAction {
    /// Focus the monitor with this id.
    FocusMonitor(i128),
    /// Focus the ordinary workspace with this id.
    FocusWorkspace(i32),
    /// Toggle the special workspace with this name (without `special:`).
    ToggleSpecialWorkspace(String),
    /// Focus the client with this address and bring it to the top.
    FocusClient(String),
}

/// Why a switch cannot be made.
#[derive(Clone, Copy, Debug, PartialEq, Eq, Structural)]
pub enum SwitchError {
    /// The selected client is not among the reported clients.
    ClientNotFound,
    /// The selected workspace, or that of the selected client, is not
    /// among the reported workspaces.
    WorkspaceNotFound,
}

/// A step of a switch, as a mathematical value.
pub enum Step {
    Monitor(int),
    Workspace(int),
    Special(Seq<char>),
    Client(Seq<char>),
}

/// The mathematical value of a switch step.
pub open spec fn step_of(a: SwitchAction) -> Step {
    match a {
        SwitchAction::FocusMonitor(m) => Step::Monitor(m as int),
        SwitchAction::FocusWorkspace(w) => Step::Workspace(w as int),
        SwitchAction::ToggleSpecialWorkspace(n) => Step::Special(n@),
        SwitchAction::FocusClient(c) => Step::Client(c@),
    }
}

/// The steps of a list of switch actions.
pub open spec fn steps_of(v: Seq<SwitchAction>) -> Seq<Step> {
    v.map_values(|a: SwitchAction| step_of(a))
}

/// `i` is the first index of a client with the address `addr`.
pub open spec fn is_first_client(clients: Seq<(String, ClientData)>, addr: Seq<char>, i: int) -> bool {
    &&& 0 <= i < clients.len()
    &&& clients[i].0@ == addr
    &&& forall|j: int| 0 <= j < i ==> clients[j].0@ != addr
}

/// `i` is the first index of a workspace with the id `id`.
pub open spec fn is_first_workspace(workspaces: Seq<(i32, WorkspaceData)>, id: int, i: int) -> bool {
    &&& 0 <= i < workspaces.len()
    &&& workspaces[i].0 == id
    &&& forall|j: int| 0 <= j < i ==> workspaces[j].0 != id
}

/// The first reported client with the address `addr`, if any.
pub open spec fn find_client(data: HyprlandData, addr: Seq<char>) -> Option<ClientData> {
    if exists|i: int| 0 <= i < data.clients@.len() && data.clients@[i].0@ == addr {
        Some(data.clients@[choose|i: int| is_first_client(data.clients@, addr, i)].1)
    } else {
        None
    }
}

/// The first reported workspace with the id `id`, if any.
pub open spec fn find_workspace(data: HyprlandData, id: int) -> Option<WorkspaceData> {
    if exists|i: int| 0 <= i < data.workspaces@.len() && data.workspaces@[i].0 == id {
        Some(data.workspaces@[choose|i: int| is_first_workspace(data.workspaces@, id, i)].1)
    } else {
        None
    }
}

/// The steps that bring the workspace `id`, named `name`, to the front
/// when `current` is the active workspace: none when it is already active
/// (Hyprland refuses to switch to the active workspace), a toggle of the
/// special workspace for a negative id, else a focus of the workspace.
pub open spec fn workspace_steps(id: i32, name: Seq<char>, current: Option<i32>) -> Seq<Step> {
    if current == Some(id) {
        Seq::empty()
    } else if id < 0 {
        seq![Step::Special(strip_prefix_or_keep(name, "special:"@))]
    } else {
        seq![Step::Workspace(id as int)]
    }
}

/// The steps of the switch to `active`, or why it cannot be made.
pub open spec fn switch_plan(active: Option<Active>, data: HyprlandData, current: Option<i32>) -> Result<
    Seq<Step>,
    SwitchError,
> {
    match active {
        None => Ok(Seq::empty()),
        Some(Active::Monitor(m)) => Ok(seq![Step::Monitor(m as int)]),
        Some(Active::Workspace(w)) => match find_workspace(data, w as int) {
            None => Err(SwitchError::WorkspaceNotFound),
            Some(ws) => Ok(workspace_steps(w, ws.name@, current)),
        },
        Some(Active::Client(a)) => match find_client(data, a@) {
            None => Err(SwitchError::ClientNotFound),
            Some(c) => match find_workspace(data, c.workspace as int) {
                None => Err(SwitchError::WorkspaceNotFound),
                Some(ws) => Ok(
                    workspace_steps(c.workspace, ws.name@, current) + seq![Step::Client(a@)],
                ),
            },
        },
    }
}

/// The Lua calls that carry out a step, in order.
pub open spec fn step_commands(s: Step) -> Seq<Seq<char>> {
    match s {
        Step::Monitor(m) => seq!["hl.dispatch(hl.dsp.focus({ monitor = "@ + int_text(m) + " }))"@],
        Step::Workspace(w) => seq![
            "hl.dispatch(hl.dsp.focus({ workspace = '"@ + int_text(w) + "' }))"@,
        ],
        Step::Special(n) => seq!["hl.dispatch(hl.dsp.workspace.toggle_special('"@ + n + "'))"@],
        Step::Client(a) => seq![
            "hl.dispatch(hl.dsp.focus({ window = 'address:"@ + a + "' }))"@,
            "hl.dispatch(hl.dsp.window.bring_to_top())"@,
        ],
    }
}

/// The message that a dry run prints in place of a step.
pub open spec fn step_dry_run(s: Step) -> Seq<char> {
    match s {
        Step::Monitor(m) => "switch to monitor "@ + int_text(m),
        Step::Workspace(w) => "switch to workspace "@ + int_text(w),
        Step::Special(n) => "toggle workspace "@ + n,
        Step::Client(a) => "switch to next_client: "@ + a,
    }
}

proof fn lemma_first_client_unique(clients: Seq<(String, ClientData)>, addr: Seq<char>, i: int, k: int)
    requires
        is_first_client(clients, addr, i),
        is_first_client(clients, addr, k),
    ensures
        i == k,
{
}

proof fn lemma_first_workspace_unique(workspaces: Seq<(i32, WorkspaceData)>, id: int, i: int, k: int)
    requires
        is_first_workspace(workspaces, id, i),
        is_first_workspace(workspaces, id, k),
    ensures
        i == k,
{
}

/// Looks up the first reported client with the address `addr`.
fn lookup_client<'a>(data: &'a HyprlandData, addr: &String) -> (r: Option<&'a ClientData>)
    ensures
        match r {
            Some(c) => find_client(*data, addr@) == Some(*c),
            None => find_client(*data, addr@) is None,
        },
{
    let mut i: usize = 0;
    while i < data.clients.len()
        invariant
            0 <= i <= data.clients@.len(),
            forall|j: int| 0 <= j < i ==> data.clients@[j].0@ != addr@,
        decreases data.clients@.len() - i,
    {
        if data.clients[i].0 == *addr {
            proof {
                assert(is_first_client(data.clients@, addr@, i as int));
                let k = choose|k: int| is_first_client(data.clients@, addr@, k);
                lemma_first_client_unique(data.clients@, addr@, i as int, k);
            }
            return Some(&data.clients[i].1);
        }
        i = i + 1;
    }
    None
}

/// Looks up the first reported workspace with the id `id`.
fn lookup_workspace(data: &HyprlandData, id: i32) -> (r: Option<&WorkspaceData>)
    ensures
        match r {
            Some(w) => find_workspace(*data, id as int) == Some(*w),
            None => find_workspace(*data, id as int) is None,
        },
{
    let mut i: usize = 0;
    while i < data.workspaces.len()
        invariant
            0 <= i <= data.workspaces@.len(),
            forall|j: int| 0 <= j < i ==> data.workspaces@[j].0 != id,
        decreases data.workspaces@.len() - i,
    {
        if data.workspaces[i].0 == id {
            proof {
                assert(is_first_workspace(data.workspaces@, id as int, i as int));
                let k = choose|k: int| is_first_workspace(data.workspaces@, id as int, k);
                lemma_first_workspace_unique(data.workspaces@, id as int, i as int, k);
            }
            return Some(&data.workspaces[i].1);
        }
        i = i + 1;
    }
    None
}

/// The steps that bring the workspace `id`, named `name`, to the front.
fn switch_workspace(id: i32, name: &str, current_workspace: Option<i32>) -> (v: Vec<SwitchAction>)
    ensures
        steps_of(v@) == workspace_steps(id, name@, current_workspace),
{
    let mut v: Vec<SwitchAction> = Vec::new();
    let on_it = match current_workspace {
        Some(c) => c == id,
        None => false,
    };
    if on_it {
        assert(steps_of(v@) =~= Seq::<Step>::empty());
    } else if id < 0 {
        let stripped = strip_prefix_text(name, "special:");
        v.push(SwitchAction::ToggleSpecialWorkspace(stripped));
        assert(steps_of(v@) =~= workspace_steps(id, name@, current_workspace));
    } else {
        v.push(SwitchAction::FocusWorkspace(id));
        assert(steps_of(v@) =~= workspace_steps(id, name@, current_workspace));
    }
    v
}

/// Decides the switch to what the GUI selected, given the workspace that
/// is active now: the steps to carry out, in order, or why the switch
/// cannot be made. Nothing is selected: no step. A monitor: focus it. A
/// workspace: bring it to the front. A client: bring its workspace to the
/// front, then focus the client.
pub fn switch_to_active(
    active: Option<&Active>,
    clients_data: &HyprlandData,
    current_workspace: Option<i32>,
) -> (r: Result<Vec<SwitchAction>, SwitchError>)
    ensures
        match r {
            Ok(v) => switch_plan(
                match active {
                    Some(a) => Some(*a),
                    None => None,
                },
                *clients_data,
                current_workspace,
            ) == Ok::<Seq<Step>, SwitchError>(steps_of(v@)),
            Err(e) => switch_plan(
                match active {
                    Some(a) => Some(*a),
                    None => None,
                },
                *clients_data,
                current_workspace,
            ) == Err::<Seq<Step>, SwitchError>(e),
        },
        match active {
            Some(a) => match *a {
                Active::Monitor(m) => r matches Ok(v) && v@ == seq![SwitchAction::FocusMonitor(m)],
                _ => true,
            },
            None => r matches Ok(v) && v@.len() == 0,
        },
{
    match active {
        Some(Active::Client(addr)) => {
            let data = match lookup_client(clients_data, addr) {
                Some(d) => d,
                None => {
                    return Err(SwitchError::ClientNotFound);
                },
            };
            let workspace_data = match lookup_workspace(clients_data, data.workspace) {
                Some(w) => w,
                None => {
                    return Err(SwitchError::WorkspaceNotFound);
                },
            };
            let mut v = switch_workspace(
                data.workspace,
                workspace_data.name.as_str(),
                current_workspace,
            );
            let ghost before = v@;
            v.push(SwitchAction::FocusClient(addr.clone()));
            assert(steps_of(v@) =~= steps_of(before) + seq![Step::Client(addr@)]);
            Ok(v)
        },
        Some(Active::Workspace(wid)) => {
            let workspace_data = match lookup_workspace(clients_data, *wid) {
                Some(w) => w,
                None => {
                    return Err(SwitchError::WorkspaceNotFound);
                },
            };
            Ok(switch_workspace(*wid, workspace_data.name.as_str(), current_workspace))
        },
        Some(Active::Monitor(mid)) => {
            let mut v: Vec<SwitchAction> = Vec::new();
            v.push(SwitchAction::FocusMonitor(*mid));
            assert(steps_of(v@) =~= seq![Step::Monitor(*mid as int)]);
            Ok(v)
        },
        None => {
            let v: Vec<SwitchAction> = Vec::new();
            assert(steps_of(v@) =~= Seq::<Step>::empty());
            Ok(v)
        },
    }
}

/// The Lua calls that carry out a step, in order.
pub fn action_commands(action: &SwitchAction) -> (v: Vec<String>)
    ensures
        views(v@) == step_commands(step_of(*action)),
{
    let mut v: Vec<String> = Vec::new();
    match action {
        SwitchAction::FocusMonitor(m) => {
            let t = int_to_text(*m);
            v.push(String::from_str("hl.dispatch(hl.dsp.focus({ monitor = ").concat(t.as_str()).concat(" }))"));
        },
        SwitchAction::FocusWorkspace(w) => {
            let t = int_to_text(*w as i128);
            v.push(String::from_str("hl.dispatch(hl.dsp.focus({ workspace = '").concat(t.as_str()).concat("' }))"));
        },
        SwitchAction::ToggleSpecialWorkspace(n) => {
            v.push(String::from_str("hl.dispatch(hl.dsp.workspace.toggle_special('").concat(n.as_str()).concat("'))"));
        },
        SwitchAction::FocusClient(a) => {
            v.push(String::from_str("hl.dispatch(hl.dsp.focus({ window = 'address:").concat(a.as_str()).concat("' }))"));
            v.push(String::from_str("hl.dispatch(hl.dsp.window.bring_to_top())"));
        },
    }
    assert(views(v@) =~= step_commands(step_of(*action)));
    v
}

/// The message that a dry run prints in place of a step.
pub fn action_dry_run_text(action: &SwitchAction) -> (s: String)
    ensures
        s@ == step_dry_run(step_of(*action)),
{
    match action {
        SwitchAction::FocusMonitor(m) => {
            let t = int_to_text(*m);
            String::from_str("switch to monitor ").concat(t.as_str())
        },
        SwitchAction::FocusWorkspace(w) => {
            let t = int_to_text(*w as i128);
            String::from_str("switch to workspace ").concat(t.as_str())
        },
        SwitchAction::ToggleSpecialWorkspace(n) => String::from_str("toggle workspace ").concat(n.as_str()),
        SwitchAction::FocusClient(a) => String::from_str("switch to next_client: ").concat(a.as_str()),
    }
}

/// A switch to a selected monitor, whatever its id, is the one step that
/// focuses that monitor, and it can always be made.
pub proof fn lemma_monitor_switch_focuses_it(m: i128, data: HyprlandData, current: Option<i32>)
    ensures
        switch_plan(Some(Active::Monitor(m)), data, current) == Ok::<Seq<Step>, SwitchError>(
            seq![Step::Monitor(m as int)],
        ),
        step_commands(Step::Monitor(m as int)) == seq![
            "hl.dispatch(hl.dsp.focus({ monitor = "@ + int_text(m as int) + " }))"@,
        ],
{
}

/// A switch to a known workspace that is not the active one takes one
/// step: a toggle of a special workspace (negative id), by its name
/// without `special:`, else a focus of the workspace by its id.
pub proof fn lemma_workspace_switch_one_step(data: HyprlandData, w: i32, current: Option<i32>)
    requires
        find_workspace(data, w as int) is Some,
        current != Some(w),
    ensures
        switch_plan(Some(Active::Workspace(w)), data, current) == Ok::<Seq<Step>, SwitchError>(
            if w < 0 {
                seq![
                    Step::Special(
                        strip_prefix_or_keep(
                            find_workspace(data, w as int)->0.name@,
                            "special:"@,
                        ),
                    ),
                ]
            } else {
                seq![Step::Workspace(w as int)]
            },
        ),
{
}

/// A switch with nothing selected takes no step and does not fail.
pub proof fn lemma_nothing_selected_takes_no_step(data: HyprlandData, current: Option<i32>)
    ensures
        switch_plan(None, data, current) == Ok::<Seq<Step>, SwitchError>(Seq::empty()),
{
}

/// A switch to a workspace that is already active takes no step: the
/// switch never asks Hyprland to switch to the workspace it is on.
pub proof fn lemma_no_step_on_active_workspace(data: HyprlandData, w: i32)
    requires
        find_workspace(data, w as int) is Some,
    ensures
        switch_plan(Some(Active::Workspace(w)), data, Some(w)) == Ok::<Seq<Step>, SwitchError>(
            Seq::empty(),
        ),
{
}

/// A switch to a client on the active workspace only focuses the client.
pub proof fn lemma_client_on_active_workspace(data: HyprlandData, addr: String)
    requires
        find_client(data, addr@) is Some,
        find_workspace(data, find_client(data, addr@)->0.workspace as int) is Some,
    ensures
        switch_plan(
            Some(Active::Client(addr)),
            data,
            Some(find_client(data, addr@)->0.workspace),
        ) == Ok::<Seq<Step>, SwitchError>(seq![Step::Client(addr@)]),
{
    let c = find_client(data, addr@)->0;
    assert(workspace_steps(c.workspace, find_workspace(data, c.workspace as int)->0.name@, Some(c.workspace)) =~= Seq::<Step>::empty());
    assert(Seq::<Step>::empty() + seq![Step::Client(addr@)] =~= seq![Step::Client(addr@)]);
}

} // verus!
