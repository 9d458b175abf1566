# servo_bridge

A verified library for the embedder-side pieces of a Servo-based game
front end, written in Verus.

- `src/` is the library; every function in it carries a contract that Verus
  proves:
  - `paths`: URL path trimming and Unix path joining;
  - `directory`, `app_protocol`: what the `app://` protocol handlers serve;
  - `bridge_build`, `build_profile`: what the build scripts print and run;
  - `game_engine`: the `spawnEnemy` / `enemydied` messages;
  - `input`, `repaint`: the SDL port's event handling and painting.
- `tests/` runs the library on concrete values.
- `app/` holds the programs around it: the Servo and SDL glue, file and
  process I/O, and the build-script entry points.

Paths are Unix paths throughout.
