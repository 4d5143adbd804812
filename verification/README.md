# d2b-clip-picker

A picker for clipboard entries under Wayland. A clipboard daemon starts it with a
socket, sends one request with the entries that may be pasted, and gets back one
answer: the entry that the user chose, or that the user chose none.

- `src/` is the library: what is shown and in what order, where the window stands,
  how it answers, and when it goes away. It is verified with Verus: every function
  is proved to meet its contract, but for the few that call another crate or the
  standard library and whose contracts are taken on trust.
- `app/` is the program around it: the socket, the compositor, and the GTK window.
- `tests/` runs the library on concrete values.

## The library

| Module | What it holds |
| --- | --- |
| `protocol` | requests, their bounds, frames and lines |
| `session` | one showing of the picker, from the first key to the one answer |
| `focus` | when losing the focus cancels |
| `rows` | search, grouping, and moving through the list |
| `presentation` | labels for endpoints, sources and ages |
| `thumbnail` | which images are shown |
| `theme`, `color`, `opacity` | palettes, and the colors that are safe in a style sheet |
| `placement` | where the picker stands, and where it may be dragged |
| `capture`, `observer` | what the compositor says |
| `pin_icon`, `render` | the drawn pin, and the rendering of a sample |
| `cli` | arguments |
| `text` | strings as sequences of characters |

The trusted functions are marked `external_body`, and what is trusted of the call
that each of them makes stands in its doc comment. So do the two assumed
specifications in `text`.
