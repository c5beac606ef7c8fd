# fit_studio

Precision Fit Studio computes ISO 286 limits and fits for a hub and a shaft,
shows the fit, and follows it across temperature.

- `src/` is the verified library (Verus): the ISO 286 tables and their
  lookups in nanometres, the names of grades and deviations, the component
  and material library with its selection, delete and drop rules, and the
  text helpers. Every function there carries a contract that Verus proves.
- `tests/` runs the library on concrete values.
- `app/` is the egui program around the library: windows, plots, floating
  point sizes and temperatures, and saving the session.
