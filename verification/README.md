# idc_launcher

The logic of a Minecraft launcher that signs players in with Discord,
keeps their accounts in MySQL, talks to a skin service and installs and runs
NeoForge, written in Verus with its contracts proved.

- `src/` is the verified library:
  - `discord.rs`: the OAuth2 authorization request with PKCE, the secrets kept
    until the code exchange, the profile read back from Discord;
  - `game.rs`: the game folder, the launch plan and the launch sequence as a
    state machine (sync, locate, create, install, run);
  - `skin.rs`: the skin service's endpoints, answers and skin models;
  - `database.rs`: user records and the database connection URL;
  - `json.rs`, `web.rs`, `text.rs`: JSON members, HTTP statuses, strings.
- `app/` performs the I/O that the library decides on: HTTP requests, the
  database, the file system and the game process.
- `tests/` runs the library on concrete values.
