# dgxtop overview logic

The decisions behind dgxtop's overview dashboard, verified with Verus:

- `theme`: the four colour palettes, theme selection by name, and the
  percentage and temperature colour thresholds.
- `overview`: how the terminal's rows are shared between the CPU/memory
  band, the GPU panel, the disk/network band and the process table.
- `cpu`, `memory`, `gpu`, `devices`, `processes`: the layout of each panel,
  the per-core bar grid, titles, row shading and status marks.
- `state`: the part of the application state these read, with the device
  histories kept by name.
- `windows`: which 1/6/12/24-hour statistics windows are shown.
- `units`, `text`: byte counts and text as the panels show them.

Layout splits are computed by ratatui's solver, called from `layout`.

`app/` holds the command line, the sampled metrics and the drawing.
