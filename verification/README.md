# tiez_shell

The decisions of the TieZ clipboard shell, verified with Verus.

TieZ keeps a clipboard history in a small window that can hide at a screen edge. This
library holds what that shell decides: which settings it starts with, how its window
appears, is docked and hides, what its shortcuts do, and which sounds it plays how
loud. Each decision is a function from what was observed to a value or a plan, with a
contract that fixes its result.

| Modules | Subject |
| --- | --- |
| `startup_settings`, `settings_store` | stored settings, their defaults and resets |
| `startup` | data directory, state, first appearance of the window, services |
| `edge_dock`, `geometry`, `plan` | docking to screen edges |
| `window_events` | focus, size and closing |
| `shortcuts`, `analytics` | global shortcuts; the daily report |
| `volume`, `rounding`, `wav` | sound volumes as IEEE patterns; scaling WAV data |
| `ui_sound`, `macos_sound`, `bundled_sound`, `paste_key_monitor` | interface sounds |
| `apps`, `win_clipboard`, `window_ext`, `window_tracker` | stand-ins without native services |
| `text`, `decimal`, `clock`, `platform` | shared ground |

Floating point numbers appear by their bit patterns: a `u64` for a double, the field of
`Volume` for a single. Plans are carried out in order; a step that fails does not stop
the ones after it.

`app/` holds the threads, files and native calls around the library, `tests/` its tests.
