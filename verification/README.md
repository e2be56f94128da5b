# fred

A Discord bot for a robotics team: it keeps notebook entries and reminders on
schedule (reminding people before the deadline and calling out missed ones),
counts boops, plays rock-paper-scissors, keeps a counting channel honest, and
looks up teams on RobotEvents.

- `src/` is the verified library: time arithmetic with the calendar library's
  ranges, decimal numbers in text, Discord/database id conversions, the guild
  settings and their merge, the polling decisions, and every reply the bot
  writes, each with its contract and the laws that relate them.
- `app/` is the bot itself: Discord commands (poise), the SQLite queries (sqlx),
  the RobotEvents client (reqwest) and the polling loops. It hands plain values
  to the library and sends what the library writes.
- `tests/` runs the library against the real `chrono`, `humantime`, `rand` and
  the standard library's integer parsing and formatting.

Run the reminder bot with `fred`, or the notebook-entry bot with `fred notebook`.
