# mitos-power

The power-management daemon of MITOS: battery, AC, CPU governor and boost,
backlight and display power, idle tiers, night mode, and power inhibitors.

The crate is split in two:

- `src/` is the library: every decision the daemon makes, written as
  functions from what was read off the machine (sysfs attribute texts,
  directory entries, clock readings) to what should be done (the values to
  report, the sysfs writes to perform, the errors to return). Each function
  carries a contract, and the library is verified with Verus.
- `app/` is the daemon-side glue: reading and writing sysfs files, listing
  directories, signals, the udev monitor, TOML loading, the async inhibitor
  registry, the signal loop, the floating-point battery/brightness
  arithmetic, and the printing of the command-line client's reports (the
  library lays out every line; app/ reads the daemon's JSON answers and
  prints).

Tests live in `tests/`.
