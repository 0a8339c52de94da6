# optimization_lab

A workbench for classic optimisation methods: dichotomy, golden-section and
Fibonacci search on an interval, and the Hooke-Jeeves method with a discrete
step, with plots, step-by-step animation of the iterations and Word/text reports.

- `src/` is the verified library (Verus): Fibonacci numbers for the Fibonacci
  search, the tab manager, the cursor and animation over an iteration history,
  the iterations a report draws, and the choices that depend on the selected
  objective, method, lab and colour theme.
- `app/` is the program around it: the egui windows, plotting, the reports, and
  the search methods themselves, which compute on `f64` throughout.
- `tests/` runs the library on concrete values.
