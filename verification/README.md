# vehicle_dashboard

A vehicle dashboard simulator whose control logic is verified with Verus.

- `src/` — the verified library: the gear shifter (`gear`), the engine switch
  and drive decisions of a vehicle (`vehicle`), the per-gear response tables
  (`response`, in thousandths), the keyboard controls and event handling of
  the two dashboard windows (`keys`, `observer`, `ui`) and the telemetry
  store (`web`).
- `app/` — the program around it: the Slint window and timer, the
  floating-point simulation of fuel, speed and engine rate, random rate
  jitter, and the axum/reqwest telemetry transport.
- `tests/` — tests of the library.
