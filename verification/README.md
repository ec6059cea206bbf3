# fmc_tfm

An ultrasonic Full Matrix Capture (FMC) simulator and Total Focusing Method
(TFM) reconstructor with an interactive defect editor, built around a
library verified with Verus.

## Layout

- `src/` — the verified library. Physical quantities are generic over their
  scalar type, so the data structures and every decision on them are proved
  without floating-point arithmetic:
  - `material`, `probe`, `defect`, `project`: the editable model; moving a
    defect changes only its position.
  - `command`: add / remove / move commands and the undo/redo history, with
    the laws that undo restores and redo replays along a consistent timeline.
  - `editor`: tool modes, placing defects, starting, following and ending
    drags, deleting from the list and keyboard shortcuts, each stated as a
    step of that history;
    Ctrl+S / Ctrl+O are reported as save / open requests.
  - `fmc`, `tfm`: FMC sample storage and TFM images with their index layouts
    proved one-to-one.
  - `fmc_file`: the checks an FMC file must pass (version, integer
    attributes, dataset shape) and the error type.
  - `project_file`: the version a project file must declare to be read.
  - `heatmap`: colormaps and when a rendered texture can be reused.
  - `scatter`: point counts of scatterer models and the sample window of a
    simulated pulse.
- `tests/` — scenario tests of the library on `f64`/`f32` and integer scalars.
- `app/` — the desktop program (eframe): windows and widgets, the
  floating-point simulator and reconstructor, HDF5, JSON and PNG file I/O.
