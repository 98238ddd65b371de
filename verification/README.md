# mscalculator

A Standard-mode calculator (digits, `.`, `±`, `⌫`, `CE`, `C`, the four
operators, `=`, `%`, `√`, `x²`, `1/x`, and the memory row `MC MR M+ M- MS`)
whose keypad logic is verified with Verus.

- `src/` — the verified library: `calculator` (state and every operation as a
  transition of `CalcModel`), `keypad` (label → command, `handle_input`,
  clear-key label), `number` (how values are written on the display), `ops`,
  `text` (string helpers), `laws` (properties across operations).
- `app/` — the egui/eframe window and the `f64` arithmetic, which the library
  receives as `Number` values.
