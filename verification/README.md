# tibia_bot

A bot that plays a character: it reads the screen, decides once per tick, and taps keys. The
decisions are a Verus library; what they rest on is stated in contracts and proved.

- `src/` is the library.
  - `fsm`, `spell_table`, `perception`, `state`, `config`, `keycode`, `boot`: what the bot decides
    by, and its state machine.
  - `loop_`: the steps of a tick, from the watchdog on the video source to the bookkeeping.
  - `safety`: drawn delays, reaction times, rate limits, breaks and session limits.
  - `health`, `instrumentation`: metrics of the ticks, and what is wrong with the bot.
  - `navigation`: walkability maps, their files, and ways through them.
  - `scripting`: Lua scripts and their hooks.
  - `remote`: what an operator may ask for and is shown.
- `tests/` runs the library.
- `app/` is the program around it: the configuration file, the clock, the game loop's thread, the
  HTTP server, and the traits through which a bridge, readers of the screen and scripted routes
  are connected.

Numbers that are fractions elsewhere are whole here: ratios are in millionths, times in
nanoseconds, delays in microseconds, and draws from a normal distribution in millionths of a
standard deviation. The draws themselves are made by the program, so that every decision is a
function of what it is given.

What the library takes on trust of other crates stands in functions marked
`#[verifier::external_body]` and in `assume_specification` items, each with a comment that says
what is claimed.
