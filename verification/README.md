# torus_trooper

The game logic of Torus Trooper, a shooter that flies down a twisting tunnel, as a
Verus-verified library, with a thin program around it.

- `src/` is the library. Each module states its behaviour in `requires`/`ensures`
  contracts over spec models, and its laws as public proof functions (`law_*`):
  - `actor`: the fixed-size actor pool with generation-stamped handles;
  - `pad`: pad directions and buttons, keyboard and joystick input, and the
    run-length encoded recording and replay of pad states;
  - `ship`, `shot`, `stage`, `shared_state`: rank and boss zones, the guns' firing
    cadence and charge shots, the shot pool, shot charge and multiplier, zone
    scheduling and tunnel colours, score, extends and the clock;
  - `title`, `manager`: the title menu, pause, game over, the escape key and the
    demo replay behind the menu;
  - `prefs`: high scores and reached levels per grade;
  - `tunnel`: the torus layout (parts and rings); `sound`: music choice;
    `letter`: text, number and time layout in glyphs; `display_list`: the naming of
    compiled display lists; `random`, `options`, `barrage`.
- `tests/` runs the library on concrete values.
- `app/` holds what the library does not: the command line, preferences on disk, the
  clock, floating-point draws and vector and colour math, replay data, and a headless
  frame loop that drives the library's decisions.
- Neither holds the ship's flight, the enemies, bullets and particles, the camera,
  the shapes, the tunnel's slice geometry, rendering, audio output or BulletML: that
  code is floating point and OpenGL, SDL and BulletML work that cannot be built
  here.
