# game

The rules of Rustwater, a fishing game played through a chat bot, as a verified Verus library,
with the storage and timer daemon around it.

- `src/` holds every rule, each with its contract, proved by Verus: seeded rolls (`rng`), the
  accelerated world clock (`world`), content validation (`content`), fishing mechanics
  (`fishing`), the encounter lifecycle and its timers (`angling`), the tackle economy
  (`economy`), exploration and travel (`exploration`), the character sheet and conditions panel
  (`character`), experience, titles, milestones and contracts (`progression`), group shoals
  (`social`), inline sharing (`sharing`), button payloads (`callback`), panel offers (`panels`),
  per-chat karma ratings (`ratings`) and the wall clock (`clock`).
- `app/` is ordinary Rust: the SQLite store, the JSON content file, the timer driver and the
  karma replies. Each action reads what the rules need inside one transaction, asks the library
  for the refusal or the plan, and writes the plan.
- `tests/` runs the library on concrete inputs.

The daemon expects `content/game.json`, and the SQL migrations in `migrations/` (applied in file
name order); `GAME_CONTENT`, `GAME_MIGRATIONS` and `GAME_DB` override the paths.
