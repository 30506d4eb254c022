# ev3rt_kit

Display, timing and input logic for LEGO EV3 bricks running EV3RT, with its
behaviour stated in Verus contracts and proved.

- `src/` is the verified library:
  - `glyph`, `glyph_code`, `glyph_table`, `font`: the 18-pixel glyphs, turned
    for each side of the brick that can be up;
  - `layout`, `screen`, `window`, `lcd`: the glyph screens, the three text
    windows, and drawing the cells that changed into the framebuffer;
  - `time`, `value`: durations, the clock, timers, and values that futures
    wait on;
  - `buttons`, `devices`: button sets turned with the brick, sensors, motors
    and the status light;
  - `brick`: the start-up checks, the Bluetooth connection sequence, the
    display refresh schedule and the diagnostic load bars, as step functions.
- `app/` is the EV3RT runtime around it: the hardware reads and writes, the
  futures, and the run loop.
- `tests/` runs the library on concrete values.
