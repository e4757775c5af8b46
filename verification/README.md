# insight_bot

A Discord bot that records voice discussions per user and has them analysed
by Gemini, either as a debate (positions, conflicts, fact checks) or as a
meeting summary.

- `src/` is the verified library (Verus): analysis modes and prompts, guild
  settings and their storage format, configuration, the per-user recorder and
  its WAV encoding, the requests sent to and answers read from the analysis
  API, report formatting and splitting, the periodic analysis loop, and the
  decisions of the slash commands.
- `app/` is the program around it: Discord and voice handling (serenity,
  songbird), HTTP (reqwest), SQLite (rusqlite), files, clock and logging.
- `tests/` exercises the library.
