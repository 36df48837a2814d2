# luminous_portal

The rules of a remote-desktop portal for wlroots compositors, verified with Verus: which devices a
client may use, what it is granted and how a grant is restored, which output it gets to control,
where its input goes, and which emulated-input devices it sees.

- `src/` is the library. Every public function states in its contract what it returns and changes;
  the laws that span functions are public proof functions beside them.
  - `flags`, `text`, `path`, `variant`, `error`: sets of flags, strings, object paths, D-Bus
    values, errors. `path` and `variant` hold the calls into zvariant, each behind a function whose
    contract is trusted.
  - `session`: sessions and what their clients select.
  - `restore`: grants, and the tokens that bring them back.
  - `input`, `remotedesktop`: input, and the started sessions that perform it.
  - `eis_server`: emulated-input clients and their devices.
  - `monitor`, `start`: the choice of an output, and the steps of a start.
  - `backend`: the remote-desktop interface.
- `tests/` runs the library.
- `app/` attaches the library to the bus, the compositor and the emulated-input sockets. What the
  rest of the process provides (screen casts, input threads, clipboards) is the trait `Host`.

Coordinates are carried without being looked at: the caller chooses their type and hands in how
two of them are added.
