# rbda

A rigid-body driving simulation whose decisions are proved correct.

- `src/model.rs` — the articulated model: a base and a list of joints, each
  naming its parent; well-formed when every parent comes before its child;
  reading and setting the joints' state through given accessors.
- `src/algorithms.rs` — the three sweeps of the articulated-body algorithm
  (outwards, inwards, outwards), proved to visit the joints in tree order and
  to read exactly the data each step needs; the numeric step of each sweep is
  passed in.
- `src/controls.rs` — engine throttle, gearbox, steering and brake decisions
  from one frame of keyboard and gamepad input.
- `src/drivetrain.rs` — engine torque bands, gear ratios and the drive target
  of a driven wheel.
- `src/laws.rs` — properties that span these functions (ranges kept, shifts
  undone, bounds).
- `app/` — the bevy program: input, spatial vector algebra and the float
  forces, the joint components, time integration and the scene.
