# terminal_radio

The verified core of a terminal radio: a globe of internet radio stations that one
spins between with the keyboard.

- `src/` is the library. It holds the state of the radio and what every key, message
  and frame does to it, the filter menu, the reading of the station directory, the
  plan for fetching and verifying stations, the layout of the screen and the text of
  every panel. Each function states what it returns or changes, and Verus proves it.
- `tests/` runs the library on concrete values.
- `app/` is the shell: the terminal, the player processes, the loading threads, and
  the projection of the globe, which is floating point.

## Where to begin

`model.rs` says what the radio does, as functions from one mathematical state to the
next; `app.rs` carries it out. `laws.rs` states what holds of every state and of
several steps together, and `runs.rs` what holds after any number of them. The laws
of the directory, the fetch, the verification, the filters and the ranking stand in
the modules of those names.

Coordinates are held as bit patterns: the library stores and passes them on, and
checks only that they are finite.

## What is taken on trust

`directory.rs` calls `serde_json` to parse replies, `layout.rs` calls `ratatui` to
split the screen, and `text.rs`, `probe.rs` and `random.rs` call a few functions of
the standard library for which `vstd` has no specification. The comment above each of
these says what is claimed of it.

## The shell's data

`app/stations.rs` is the curated table. `app/coastline.rs` and `app/borders.rs` hold
polylines of longitude and latitude in degrees; bake them from Natural Earth's 50m
GeoJSON (`ne_50m_coastline`, `ne_50m_admin_0_boundary_lines_land`), each line as a
`&[(f32, f32)]`.
