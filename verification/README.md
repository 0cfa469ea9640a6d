# EDMA: Embedded Database Management for All

A terminal interface for embedded key-value stores: it lists the configured databases,
reads their pairs, and decodes key and value bytes with byte layout templates (a field is a
byte range read as a string, an integer, a float, a UUID, booleans or raw bytes).

## Layout

- `src/` is the library, written and proved with Verus: byte decoding and templates,
  the configuration and its JSON text, list and table navigation, and every component's key handling and
  what it shows. Each public function states its result in its `ensures`; the laws that
  relate several calls (moving down then up, entering then escaping a box, the two
  database keys) are public proof functions next to the code they speak of.
- `app/` is the program around it: command line, reading the configuration file, the
  terminal, the input thread, drawing with `tui`, and running shell commands.
- `tests/` runs the library on concrete values.
