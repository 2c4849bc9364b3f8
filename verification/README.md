# WiiLand

Wii controllers as gamepads and pointers on a Linux desktop: a daemon, a control center and a
terminal view.

- `src/` is the library. It holds the logic of the three programs, with contracts that Verus
  proves. It does no input or output of its own: an operation that needs the system is a function
  from what has happened to what is to be done next.
- `app/` is the programs: windows, terminals, processes, files and sockets. It performs what the
  library asks for and tells it what came of it. The messages of the protocol are lines of JSON,
  which `app/wire.rs` reads and writes.
- `tests/` runs the library on concrete values.

Two functions of the library are trusted, not proved: `text::decode` and `text::decode_lossy`,
which hand bytes to the standard library's UTF-8 decoding.
