# sea_of_fortune

The rules of a multiplayer pirate game, verified with Verus.

* `src/` — the library. Each module states its rules as contracts over plain
  values and proves them:
  `states` (world and shop states, moving between ocean, islands and
  dungeons), `inventory` and `shop` (gold, items, the pages of the shop, upgrades, selling,
  loot),
  `combat` (hit resolution, damage, loot from defeated enemies),
  `player`, `boat`, `animation`, `controls`, `enemies` (per-kind tables),
  `level` (tile layout and random tiles, islands and dungeons) and `network`
  (message names, joining the lobby).
* `tests/` — tests of the library on concrete values.
* `app/` — the game client on the engine: windows, sprites, input, timers,
  floating-point positions and the UDP connection, calling the library for
  every decision.
