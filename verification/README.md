# Customizable floating window

A plugin for an audio host shows the host's state in a small window that stays on
top: the input level, mute and monitoring, the device and how long it has been
connected. The window is drawn from a theme that the user can replace, and what is
done in it (a click, a drag, a menu) goes back to the host.

`src/` is the library. It holds every decision and is verified with Verus. Each
function says in its contract what it returns, and the functions named `law_...`
prove what holds across functions. `app/` is ordinary Rust around it: the plugin's
entry points, the window's process, the event loop, files, pipes and system calls.
It performs the actions that the library hands out and feeds back what came of
them. `tests/` runs the library.

Where the library needs what another crate computes, a function marked
`external_body` makes the call: `serde_json` for JSON texts and objects,
`slint_interpreter` and `pollster` to compile themes. Its contract says what is
taken from that crate without proof.
