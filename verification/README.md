# rambots

Controls library for a VEX V5 competition robot (lifts, autonomous routes,
pneumatics, sensor-gated waits, localisation support), with its decision
logic verified by Verus.

## Layout

- `src/` - the verified library.
  - `subsystems::lift::presets` - named lift heights: lookup by name and
    position, cycling up and down with wrap-around, nearest preset.
  - `subsystems::lift::target` - target height, soft limits, hold flag.
  - `subsystems::claw`, `hardware::pneumatics` - pneumatic claw state.
  - `auton` - actions, routes and the wait plan a route executor follows;
    deadline arithmetic for time-boxed actions.
  - `motion` - when a distance wait is over; when a drive-to-coordinate
    motion has settled or timed out.
  - `localization` - the particle filter's xorshift generator, sensor
    observation bundles, sensor directions.
  - `logger` - uptime fields and level colours of log lines.
- `tests/` - tests of the library.
- `app/` - the competition program: device I/O, async futures, and every
  floating-point computation (geometry, feedback controllers, Kalman and
  particle filters, drive mixing).

## Heights as keys

The library never computes with floating-point numbers. Lift heights are
passed as *height keys*: integers ordered as the heights they stand for
(`app/keys.rs` maps an `f64` to its key and back exactly). Quantities the
library only carries, such as drive distances in autonomous actions, are a
type parameter `N` that the program instantiates with `f64`.
