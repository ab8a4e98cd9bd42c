//! The state that the GUI shares with the daemon, and which monitors the
//! GUI is shown on.
use vstd::prelude::*;

use crate::exec::{Active, HyprlandData};
use crate::text::views;

verus! {

/// The GUI settings that the daemon reads while the GUI is open.
#[derive(Clone, Debug)]
pub struct GuiConfig {
    /// The connectors of the monitors to show the GUI on; all when `None`.
    pub monitors: Option<Vec<String>>,
    pub show_workspaces_on_all_monitors: bool,
}

/// The state shared between the GUI and the daemon.
#[derive(Clone, Debug)]
pub struct SharedData {
    pub active: Option<Active>,
    pub hypr_data: HyprlandData,
    pub gui_config: GuiConfig,
}

/// Whether the GUI is shown on the monitor with the connector `connector`:
/// on every monitor without a filter, else on the listed ones.
pub open spec fn monitor_shown_spec(monitors: Option<Vec<String>>, connector: Seq<char>) -> bool {
    match monitors {
        None => true,
        Some(m) => views(m@).contains(connector),
    }
}

/// Whether the GUI is shown on the monitor with the connector `connector`.
pub fn monitor_shown(monitors: &Option<Vec<String>>, connector: &String) -> (b: bool)
    ensures
        b == monitor_shown_spec(*monitors, connector@),
{
    match monitors {
        None => true,
        Some(m) => {
            let mut i: usize = 0;
            while i < m.len()
                invariant
                    *monitors == Some(*m),
                    0 <= i <= m@.len(),
                    forall|j: int| 0 <= j < i ==> m@[j]@ != connector@,
                decreases m@.len() - i,
            {
                if m[i] == *connector {
                    assert(views(m@)[i as int] == connector@);
                    return true;
                }
                i = i + 1;
            }
            assert(!views(m@).contains(connector@)) by {
                if views(m@).contains(connector@) {
                    let k = choose|k: int| 0 <= k < views(m@).len() && views(m@)[k] == connector@;
                    assert(m@[k]@ == connector@);
                }
            }
            false
        },
    }
}

/// The indices of the monitors, by connector, that the GUI is shown on,
/// in order.
pub fn monitors_to_show(gui_config: &GuiConfig, connectors: &Vec<String>) -> (v: Vec<usize>)
    ensures
        forall|k: int| 0 <= k < v@.len() ==> v@[k] < connectors@.len(),
        forall|k: int, l: int| 0 <= k < l < v@.len() ==> v@[k] < v@[l],
        forall|i: int|
            0 <= i < connectors@.len() ==> (v@.contains(i as usize) <==> monitor_shown_spec(
                gui_config.monitors,
                connectors@[i]@,
            )),
{
    let mut v: Vec<usize> = Vec::new();
    let mut i: usize = 0;
    while i < connectors.len()
        invariant
            0 <= i <= connectors@.len(),
            forall|k: int| 0 <= k < v@.len() ==> v@[k] < i,
            forall|k: int, l: int| 0 <= k < l < v@.len() ==> v@[k] < v@[l],
            forall|j: int|
                0 <= j < i ==> (v@.contains(j as usize) <==> monitor_shown_spec(
                    gui_config.monitors,
                    connectors@[j]@,
                )),
        decreases connectors@.len() - i,
    {
        let ghost before = v@;
        if monitor_shown(&gui_config.monitors, &connectors[i]) {
            v.push(i);
            assert(v@ == before.push(i));
            assert forall|j: int| 0 <= j < i implies (#[trigger] v@.contains(j as usize)
                <==> before.contains(j as usize)) by {
                if v@.contains(j as usize) {
                    let k = choose|k: int| 0 <= k < v@.len() && v@[k] == j as usize;
                    if k < before.len() {
                        assert(before[k] == j as usize);
                    }
                }
                if before.contains(j as usize) {
                    let k = choose|k: int| 0 <= k < before.len() && before[k] == j as usize;
                    assert(v@[k] == j as usize);
                }
            }
            assert(v@[v@.len() - 1] == i);
        }
        assert(!before.contains(i)) by {
            if before.contains(i) {
                let k = choose|k: int| 0 <= k < before.len() && before[k] == i;
            }
        }
        i = i + 1;
    }
    v
}

/// Selects the client with the address `address`.
pub fn gui_set_client(data: &mut SharedData, address: String)
    ensures
        final(data).active == Some(Active::Client(address)),
        final(data).hypr_data == old(data).hypr_data,
        final(data).gui_config == old(data).gui_config,
{
    data.active = Some(Active::Client(address));
}

/// Selects the workspace with the id `id`.
pub fn gui_set_workspace(data: &mut SharedData, id: i32)
    ensures
        final(data).active == Some(Active::Workspace(id)),
        final(data).hypr_data == old(data).hypr_data,
        final(data).gui_config == old(data).gui_config,
{
    data.active = Some(Active::Workspace(id));
}

/// Selects the monitor with the id `id`.
pub fn gui_set_monitor(data: &mut SharedData, id: i128)
    ensures
        final(data).active == Some(Active::Monitor(id)),
        final(data).hypr_data == old(data).hypr_data,
        final(data).gui_config == old(data).gui_config,
{
    data.active = Some(Active::Monitor(id));
}

/// Without a monitor filter the GUI is shown on every monitor.
pub proof fn lemma_no_filter_shows_all(connector: Seq<char>)
    ensures
        monitor_shown_spec(None, connector),
{
}

} // verus!
