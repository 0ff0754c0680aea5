# slime_server

The game logic of a Slime Online 2 server, written in Verus: the message
formats and their encryption, the anti-cheat checks, the routing of a
client message to its handler, and the decisions the handlers take (shops,
bank, mail, clans, planting, storage, quests, racing and the rest), each
with a contract that Verus proves. The `.sor` archive format of the client
and the moderator tool's request building live here too.

What is not here: the server process itself (the socket loop, the session
table, the database queries and the admin HTTP API) and the numeric table
of message type ids; the library takes a message's kind already decoded,
and the builders of the ping and player-stop replies take those ids as
arguments.

Layout:

- `src/` — the verified library. `handlers/` holds one module per game
  feature; `anticheat/`, `admin/`, `config/`, `db/` (the stored rows) and
  `mod_tools/` hold the rest. Calls into `rc4`, `bcrypt`, `chrono`, `uuid`,
  `rand` and a few standard-library functions go through small trusted
  wrappers whose contracts say what those crates guarantee.
- `tests/` — tests of the library on concrete values.
- `app/` — the command-line programs around the library: the moderator
  tools (HTTP requests to the admin API, an interactive prompt) and the
  `.sor` archive tool (files and directories), plus the reading of the
  TOML configuration files.
