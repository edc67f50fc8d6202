# mortimmy

Control logic of a small two-controller rover, written in Verus: the host
brain that turns operator input into desired robot state, and the firmware
scaffold that applies that state on the motion and audio controllers.

Layout:

- `src/units.rs`, `src/protocol.rs`, `src/samples.rs`: units, limits and the
  typed messages exchanged between host and controllers (audio chunks live in
  a fixed-capacity `heapless` buffer).
- `src/firmware/`: the controller side — drive and servo limiting, the
  control loop, link bookkeeping, the USB link session's decisions (link
  timeout to fault, replies), sensors, audio playback accounting, the
  Trellis keypad, the status display and the request/response scaffold.
- `src/host/`: the host side — operator input (keyboard, gamepads,
  websocket clients, scripted input), the controller registry, routing of
  intent into commands, the robot brain and its autonomy plans, the console
  model and its commands and completions, the command-line grammar, the
  configuration model and the hardware test plans.
- `src/text.rs`: character-sequence helpers the rest builds on.
- `tests/`: executable tests of the library.
- `app/`: the command-line program around the library: argument handling,
  configuration files, the `start` console and brain loop, the workspace
  file walk for `@file` references, and the test runner, all over the
  in-process controller.

Every function in `src/` carries a contract checked by Verus; the public
`lemma_*` proof functions state properties that hold across calls.
