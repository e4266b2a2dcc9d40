# kridtiler

A popup grid tiler for KDE Plasma 6 / KWin: a named preset, an explicit
`--tile X1 Y1 X2 Y2`, a small popup picker (`--show`) or a full-screen
overlay (`--overlay`) moves the active window onto a rectangle of grid cells,
through KWin's scripting interface on D-Bus.

Layout:

- `src/` — the library, verified with Verus:
  - `text.rs`: placeholder substitution, decimal printing and parsing, padding, joining;
  - `preset.rs`: the built-in preset table;
  - `config.rs`: the configuration, its defaults and its location;
  - `command.rs`: the command line and how a tiling request resolves, with its error messages;
  - `plan.rs`: the mode of a run, its plugin name, waiting and outcome, and the preset listing;
  - `script.rs`: the KWin script templates filled in, and the generated file names;
  - `inbox.rs`: the results that scripts report back;
  - `json.rs`: a plain model of parsed JSON, the reading of members from it, and the parse by `serde_json`;
  - `monitors.rs`: the monitor table and the result file, read from JSON.
- `app/` — the program around it: argument parsing, the configuration file,
  logging, D-Bus and files.
- `tests/` — tests of the library.

The KWin script templates (`kwin-script/*.tmpl`) are read at run time from
the source tree.
