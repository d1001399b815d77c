# dick_grower

A Discord bot where players grow a virtual length once an hour, battle for
centimeters, gift them, claim daily rewards and streaks, take a timed growth
boost, prestige for permanent bonuses and compete on server and global
leaderboards, under random global events.

- `src/` is the game itself, verified with Verus: every rule (cooldowns,
  boosts, streaks, daily rewards, prestige arithmetic, battles, gifts, the
  Dick of the Day, events and community pots, the challenge board, the
  server-name cache and the texts the bot answers with) has a contract, and
  the properties that span several calls are proved as lemmas.
- `tests/` runs the library on concrete values.
- `app/` is the bot program: it talks to Discord (serenity) and SQLite (sqlx),
  reads the clock, and hands plain values to the library.
