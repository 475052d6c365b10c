# frc

Building blocks for an FRC robot program, verified with Verus.

- `src/rev/ffi.rs` — the enumerations shared with REVLib's C++ interface and
  their 32-bit codes.
- `src/rev.rs` — `RevError`, the meaning of each REVLib status as a Rust
  result, and error messages.
- `src/rev/spark_max.rs` — the SPARK MAX motor types and `SetPacer`, the rule
  that spaces output updates at least 10 ms apart.
- `src/server/subsystem.rs` — the state of the example subsystem.

`app/` holds what talks to the outside world: the C++ bridges, the motor
controller task, tokio-backed subsystem handles, floating-point swerve
kinematics, and the demonstration entry points.
