# rock_runtime

The verified core of a Lua-scripted game-mode runtime. Scripts reach the
runtime through plugins (`entity`, `fc`, `memory`, `on`, `scene`, `timer`, …);
scene coroutines yield opcodes such as `MEMORY_RECALL` that are routed back to
the plugin that serves them.

## Layout

- `src/` — the library, verified with Verus:
  - `plugin.rs`: plugin names, opcodes and their routing, the plugin composer;
  - `registry.rs`: the keyed table the other modules store their state in;
  - `timer.rs`, `scene.rs`, `on.rs`, `layer.rs`, `input.rs`, `entity.rs`,
    `custom.rs`, `json.rs`: the bookkeeping of timers, scene tasks, event listeners,
    layers, input events, blueprints, entity queries, custom fields and
    the JSON values they hold;
  - `memory.rs`, `farcaster.rs`, `rock.rs`, `player.rs`, `room.rs`: the
    argument checks and request plans of the plugins that talk to services;
  - `text.rs`: the text helpers the contracts are stated with;
  - `events.rs`, `protocol.rs`, `plugins.rs`, `outside.rs`: shared types.
- `tests/` — tests of the library on concrete values.
- `app/` — the Lua and tokio plumbing: the plugin trait and its Lua composer,
  the Lua APIs of the `room` and `json` plugins, and the timer and scene
  runtimes that start tasks and resume coroutines around the library's
  decisions.
