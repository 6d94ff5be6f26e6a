# ping_meter

A small network latency monitor: a window pings one host at a steady pace,
plots the recent round trips, and shows their variation and the share of lost
pings. The settings are edited in a form and kept in `settings.json`.

- `src/` is the verified library (Verus): the two-way channel between the
  window and the pinging thread, the sample history and its statistics, the
  settings form and its checks, decimal text, the main screen's texts, the
  pinging thread's decisions, and the window's reactions to messages and to
  the user. Fractional settings are carried with an opaque number type `F`.
- `app/` is the program around it: egui drawing, the settings file (serde),
  the `ping` command, the pinging thread's loop, and the floating-point
  arithmetic (reading fractional fields, the displayed variation and loss).
- `tests/` exercise the library on concrete values.
