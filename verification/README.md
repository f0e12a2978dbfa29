# buoy

The decision logic of a buoyancy (weather balloon) simulator, verified with
Verus, and a command-line program around it.

- `src/` is the verified library. Each public function states in its
  contract what it returns or changes, and the library's laws are public
  proof functions beside the functions they speak of:
  - `cli`: what each command-line command asks for, and the schedule of a
    simulation run (start once, then collect output and sleep, forever);
  - `sim_state`: the simulation's run state, the pause key, faulting;
  - `parachute`: the stowed / partially open / fully open deployment;
  - `flight`: which body's drag acts in a flight step;
  - `camera`: camera target cycling, targeting requests and movement keys;
  - `debug`, `controls`: the debug overlays, the time-scale keys and what
    they do to real-time mode;
  - `shell`: the set of open screens of the mission-control shell;
  - `monitors`, `io`: monitor text layout and the output log's columns.
- `app/` is the program: argument parsing, the floating-point flight model,
  configuration files and the CSV log, driven by the library's decisions.
- `tests/` runs the library on concrete values.
