# zed_logic

The decision logic of parts of an editor, written in Verus and proved
against its contracts: the buffer and project search bars, path handling
for agent tools, the file-reading tool, the agent-protocol connection and
its sessions, the debugger's breakpoint list and console completion, the
markdown preview, and the Linux (X11 and Wayland) platform layer.

- `src/` is the verified library. Each module holds the decisions of one
  area as functions with `requires`/`ensures`, over spec functions and
  views. Calls into outside crates (regex, urlencoding, uuid, chrono) and a
  few std functions sit behind small trusted wrappers whose doc comments
  say what is claimed of them.
- `tests/` runs the library on concrete inputs.
- `app/` is the unverified rim: JSON input, the environment, and the
  floating-point arithmetic of the platform layer.
