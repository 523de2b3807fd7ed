# movebox

A box in a piston window that the arrow keys move around.

- `src/` is the verified library: which keys are held (`KeyPressRegistration`),
  the arrow-key system that turns held keys into a velocity (`ButtonSystem`),
  the event and velocity model in `keys.rs`, the glyph pixel fill in
  `conrod_setup.rs`, and proofs of its laws in `laws.rs`.
- `app/` is the program: the window, the specs world and systems, conrod setup,
  and the float components that positions and velocities live in.
