# lan_mouse_clipboard

Plain-text clipboard sharing between machines on one network, written in
[Verus](https://github.com/verus-lang/verus): the library's behaviour is stated
in contracts and proved.

Peers hold one TLS connection over TCP each. A text that is copied on one
machine is broadcast to its peers, put on their clipboards and relayed to
theirs, and never travels in circles.

## Layout

`src/` is the verified library. It does no I/O.

| Module | What it holds |
|---|---|
| `proto`, `wire` | messages, their frames, and the calls into `postcard` |
| `clipboard_state`, `loop_laws` | loop suppression, and what holds of copying and relaying as a whole |
| `clipboard` | the clipboard task: local changes and network events in, what to broadcast, apply and relay out |
| `clipboard_net` | `Hello`, certificates, errors and events of the side-channel |
| `peer_session` | one connection from the end of its TLS handshake to its close |
| `peer_table`, `peer_addr` | the open connections and the commands on them |
| `backend`, `commands` | the platform clipboards, the choice between them, and their commands |
| `wayland`, `wayland_dispatch` | the Wayland clipboard's decisions and the order of work on its thread |
| `macos` | the macOS clipboard's decisions |
| `crypto` | certificate fingerprints |
| `content`, `error`, `text` | shared types and comparisons |

Functions named `law_…` state what holds across functions, for every input.

`app/` is ordinary Rust around the library: sockets, TLS, the Wayland
connection, the macOS pasteboard, and the tasks that drive the library's state
machines. `tests/` runs the library on concrete values.

## What is trusted

Proofs rest on the contracts of a few wrappers around outside functions:
`postcard`'s encoder, decoder and error (`wire`), SHA-256 from `sha2` (`crypto`), and
`std::str::from_utf8` (`macos`). Each is marked `Trusted:` in its doc comment.
