# marker_driver

The verified core of Marker's rustc driver, written with Verus.

- `src/cli.rs`: reading options from the command line (`--arg value` and `--arg=value`).
- `src/driver.rs`: the decisions the driver takes at start-up (sysroot, `--rustc`,
  informational flags, wrapper mode, whether Marker's lint pass runs) and the `--cfg`
  flags for lint crates.
- `src/paths.rs`: toolchain directories and file stems, through `camino`.
- `src/ids.rs`: the id layouts shared between rustc and Marker's API, and their round trips.
- `src/span.rs`: spans relative to their source (a file, a macro expansion or desugared
  code) and the tables of span sources.
- `src/levels.rs`, `src/kinds.rs`: lint levels, lint registration, operators, qualifiers,
  primitive types and visibilities.
- `src/error.rs`: the structured error type and the `Context` extension trait.
- `src/lints.rs`: the decisions of Marker's own lints.
- `src/storage.rs`: the arena that holds API nodes, through `bumpalo`.
- `app/`: the driver program around the library (rustc's driver interface, the
  environment, error rendering with `miette`), the lint pass that hands the crate to
  the lint crates, the conversion of rustc's HIR and types into Marker's nodes
  (`app/conversion`, and `app/driver_rustc` for the `marker_driver_rustc` driver),
  which needs the compiler's private crates, and the lint pass of Marker's own
  lints (`app/marker_lints.rs`), which reads API nodes for `src/lints.rs`.
