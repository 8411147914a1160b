# knobmuse

The logic of a delay-effect control panel and of a circular gradient knob,
verified with Verus, with the egui program that draws them.

- `src/` is the verified library: the panel's control state and how clicks
  change it (`controls`), the tempo knob's divisions (`tempo`), the level
  meters' segment colours (`meter`), the gradient knob's tick marks (`dial`),
  the colours and sizes of switches, mode labels and knobs (`widgets`), the
  palette (`colour`) and label comparison (`text`).
- `tests/` runs the library on concrete values.
- `app/` is the program: layout and painting with egui/eframe, and every
  computation done in floating point (knob dragging, smoothing, gradients,
  meter levels, geometry).
