# d2sed

A Diablo II save editor whose character model and file encoding are verified
with Verus.

- `src/` is the verified library:
  - `save.rs`: the LSB-first bit writer used for the stats section, the
    `.d2s` checksum, and the header fix-up (file size and checksum fields).
  - `model.rs`: the `Savegame` model. Level changes, attribute and skill
    point budgets, gold caps, vitals, quests and waypoints. The game rule
    values (base stats, level tables, class growth, quest rewards) enter as
    plain values; edits that change what the vitals depend on return a
    `FollowUp` telling the caller to recompute them.
  - `serialize.rs`: the stats section encoding and the header decisions
    (version number, expansion mode, status flags) made when writing a file.
  - `session.rs`: the launch screen and dialog state of the editor.
  - `paths.rs`, `config.rs`: the save folder choice and stored settings.
  - `laws.rs`: properties that relate several edits (point conservation,
    round trips, budget balance, vitals, bit read-back).
- `app/` is the iced desktop front end. It reads and writes character files
  and takes the game rule values from libd2.
- `tests/` exercise the library.
