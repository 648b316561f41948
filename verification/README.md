# dumo

A verified core for a [Ratatui](https://ratatui.rs) backend that renders fixed-width bitmap
fonts (`mplusfonts`) onto any `embedded-graphics` draw target.

## Layout

- `src/` is the library, verified with Verus:
  - `blink` — blink animation cycles and the controls for driving them;
  - `color`, `builder` — lookup of terminal colors in 16- and 256-color palettes, and a builder
    for 256-color tables;
  - `cursor` — cursor appearance settings;
  - `geometry`, `backend::rect`, `backend::size` — pixel geometry with saturating arithmetic;
  - `backend` — measuring the text area, placing cells, the cursor position, and the areas
    that clearing a region fills;
  - `backend::draw` — the colors, decorations, modes, and areas chosen for each cell and for the
    cursor;
  - `wrapper` — the blinking, cursor, and flushing layers, with their caches of cell content.
- `app/` is the backend itself: it draws on the draw target, measures text with the fonts,
  applies the color operations of the pixel color type, holds the built-in palettes (computed
  with floating-point levels), and implements Ratatui's `Backend` trait for each layer.
- `tests/` exercises the library on concrete values.
