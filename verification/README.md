# Copperline's window

The decisions behind the window of an Amiga emulator, verified with Verus: the
debugger's console and its commands, breakpoints and watches, the GDB remote
client, warp and run-ahead, power and saved states, shared sessions over the
network, the menu, the focus that walks the interface without a pointer, and
the pages of the inspectors.

- `src/` holds the logic. It performs nothing: each operation changes the state
  and records what the host is to do (`effects.rs`), in order. Its contracts
  say both. What only the host can find out comes in as a value, and where an
  operation has to wait for the host it is split in two, the question and what
  follows from the answer.
- `tests/` runs it on concrete values.
- `app/` is the host's side: the window, the pickers, the clipboard, the files
  of settings, and drawing what the library's sheets say.
