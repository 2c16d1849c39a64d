# couch_gui

The decisions behind the screens of a couch remote, stated and proved with
Verus: which rows a room has, where a key goes, when a command is sent and what
is said of it, how a frame is put together.

- `src/` is the library. Every function in it carries a contract, and each
  module ends with the laws that hold across its functions. Screens and workers
  are state machines: a function from a state and an event to the next state and
  what to do.
- `app/` is the part that touches the device: the framebuffer, the files under
  `/sys` and `/proc`, the screens' controllers with their channels, and the
  threads that run the library's machines. The clients that talk to lights,
  speakers and televisions are the traits in `app/clients.rs`.
- `tests/` exercises the library on concrete values.

Times are milliseconds, or microseconds or nanoseconds where a name says so, and
text that is shown is compared as a sequence of characters. A floating-point
number is passed by its bits, and `src/rounding.rs` works out what arithmetic on
such numbers comes to, rounding included.

What the library takes on trust: that `str::to_lowercase` gives the same text for
the same text (`src/sonos.rs`), and that the `image` crate writes the same PNG
file for the same pixels (`src/kodi_pictures.rs`).
