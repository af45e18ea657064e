# ifs_render

A renderer of iterated function systems: an egui panel edits the functions,
their weights and a transform, background evaluators iterate the system on
several threads and count the hits of each pixel, and the counts are drawn as
an image.

- `src/` is the verified library: the hit-count histogram (`histogram`), the
  integer and string text boxes of the settings panel (`textbox`, with the
  decimal notation in `decimal`), the preview and export settings (`params`),
  the one-run-at-a-time bookkeeping of an evaluator thread (`task`), the
  panel's pending-work flags (`flags`) and the steps of one frame of the panel
  (`frame`), which say what the program does next.
- `app/` is the program around it: the egui panel, the threads, the formula
  compiler, random sampling and everything in floating point.
- `tests/` exercises the library on concrete values.

`app/` also uses `ifs_lang`, the parser and compiler of the function
language. That crate is not published on crates.io, so `Cargo.toml` does not
list it and `app/` builds only where it is supplied.
