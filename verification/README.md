# wrk

Background workers for a tokio-core event loop, driven by small state
machines.

- `src/` is the verified library (Verus): the worker and actor command
  interpreters (`worker`, `reschedule`), the counting and rescheduling state
  machines with their proved laws (`counter`, `reschedule`), a periodically
  updated component (`component`) and a service with a ready future (`spmc`).
- `app/` runs the example programs: it sets the timers, runs the futures and
  drives the event loops, asking the library what each command means.
- `tests/` exercises the library on concrete values.
