# dbus-router

A dual-upstream D-Bus router for sandboxed applications: every message of a
client goes either to a host bus or to a sandbox bus, by configurable rules,
and unique names are given a per-bus prefix (`:h.` or `:s.`) on the way to the
client and lose it on the way back.

The decisions are a library verified with Verus (`src/`):

- `config`, `routing`: host routes, hostpass clients (glob patterns on the
  client's executable path, matched with `glob`), and where each request goes;
- `fake_name`: the prefixed unique names and their inverse;
- `message`, `wire`, `codec`: the message prologue, header fields and body
  strings (the D-Bus encoding itself is done by `zvariant`);
- `rewrite`, `daemon`: rewriting header fields and bodies, merging `ListNames`;
- `session`: the per-client state machine that turns each message read from a
  connection into the delivery to perform, and decides what a closed
  connection ends;
- `auth`, `socket`, `conn`, `format`: the authentication exchange, socket
  buffering and fd bookkeeping, addresses, and dbus-monitor style text.

`app/` is the program around it: argument handling, configuration loading,
sockets, the authentication and forwarding loops, and logging.

`tests/` holds the tests of the library.
