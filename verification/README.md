# hyprswitch (verified core)

The logic of hyprswitch, a window switcher for Hyprland, written in Verus
with its behaviour stated in contracts and proved.

- `src/text.rs`: decimal text of integers, booleans, joining and trimming.
- `src/config.rs`: the config file's settings and how each is written.
- `src/generate.rs`: the Hyprland Lua script a config turns into.
- `src/submap.rs`: the switching submap, its binds and the scripts that
  enter and leave it.
- `src/exec.rs`: the steps of a switch to the selected client, workspace
  or monitor, and the commands of each step.
- `src/gui.rs`: the selection the GUI shares, and the monitors it shows on.
- `app/`: running `hyprctl`, finding the executable, asking Hyprland for
  the active workspace.
