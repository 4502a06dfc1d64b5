# smart_brain_engine

The verified core of the Smart Brain hybrid desktop engine, a trading UI
that layers egui panels, a native GPU chart canvas and HTML overlays.

- `src/` is the library, verified with Verus: the permission consent guard,
  the dirty-rectangle and JavaScript-trigger bookkeeping of the HTML engine,
  the engine-signature scanner and layer planner for web bundles, the RGBA
  theme (colours premultiplied by egui), the trading report layout, text
  search and decimal formatting, and the mode choices of the chart and
  cursor engines.
- `app/` is the desktop program around it: window and GPU set-up, drawing,
  file reading and writing, and everything that computes in floating point
  (layout geometry, chart scissor rectangles, prices, PDF page geometry).
- `tests/` exercises the library on concrete values.
