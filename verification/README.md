# brioschenbot

The decision logic of the BrioschenBot Telegram bot, verified with Verus.

- `src/` — the verified library: text formatting and parsing (`text`), regular
  expressions through the `regex` crate (`pattern`), chat commands
  (`commands`), automatic replies (`reply`), the TeamSpeak handler's plans
  (`teamspeak`), the user directory queries (`users`), the log-chat relay
  (`relay`), configuration (`config`) and random numbers (`chance`).
- `app/` — the program: Telegram, MySQL, TeamSpeak query and HTTP I/O, driven
  by the library's decisions.
- `tests/` — tests of the library on concrete values.
