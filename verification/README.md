# e_plugin

An "E-conomy" plugin for the Pumpkin Minecraft server: players earn Es by
writing E-like characters in chat, can ask for their balance with `/e`, and
are told when their balance reaches a milestone.

- `src/` is the verified library (Verus): the ledger of balances and chat
  instants (`state`), the milestone table and its rules (`milestones`,
  `state_laws`), the reward table and the scan of chat messages (`chat`,
  `chat_laws`, `spacing_laws`), player keys (`player`), and the styled texts shown to players
  (`text`, `notices`, `command`, `join`).
- `app/` is the plugin itself: it registers handlers and the command with the
  server, turns the library's styled texts into text components, computes the
  floating-point multiplier of a message and the colour of each E, and saves
  the balances as JSON in the plugin's data folder.
- `tests/` runs the library on concrete values.
