# lori

A small Lua-scripted 2D runtime (window, input, physics, drawing). The
crate's library (`src/`) holds the runtime's decisions, verified with Verus:

- `print`: the badged log lines and the stream each goes to.
- `script`: the call protocol between the main thread and the script
  thread: which callbacks a script defined, what each call is answered
  with, when the script thread stops, and what happens after the script
  is loaded.
- `keys`, `host`: the held keys, the window size, and the answers to the
  script's queries; mouse button numbering.
- `thing`: the id bookkeeping of spawnable things.

`app/` is the program around it: the window and event loop (winit), the
GPU (wgpu), the physics world (rapier2d), the Lua interpreter (mlua) and the
channels between the threads.
