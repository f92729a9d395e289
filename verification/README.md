# rnote_engine

Verified logic of three features of a note taking engine, written in Verus:

- **Zoom window**: a panel that magnifies a small box on the document for writing small
  and neat. The box moves along the line as strokes end in its right quarter, wraps to a
  new line at the document edge, and can be dragged and resized on the main canvas.
- **Presentation**: an audience window that frames one whole page, centered and
  letterboxed, follows the lecturer's page or stays locked on one, and can be blanked.
- **Smart ink**: the bookkeeping of an external stroke refiner: command line splitting,
  request ids, response checks and when the refiner process is dropped.

Positions are counted in fine units, 2^20 to a document unit; fractions of a box width and
scale steps are taken to the nearest fine unit. Surface sizes are whole pixels, and zooms are
exact fractions kept within the camera zoom limits (a fifth to six pixels per document unit).
The refiner strength is carried as the bits of an IEEE double, untouched.

Layout:

- `src/` the verified library: `geometry`, `camera`, `document`, `pen`, `widget_flags`,
  `zoomwindow`, `presentation`, `engine` (with its `zoomwindow` and `presentation`
  operations), `presentation_window` and `zoom_panel` (decisions of the widgets), `smartink`.
- `tests/` tests of the library.
- `app/` the refiner wire format with serde, the refiner child process, and conversions
  between float widget geometry and the library's units.
