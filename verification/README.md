# framework_tool_tui

The information screen of a terminal tool for Framework laptops, as a
verified library.

- `src/power.rs` – battery and charger figures and the charging status.
- `src/controls.rs` – charge limit, privacy switches, brightness levels.
- `src/smbios.rs` – BIOS vendor, version and release date from the SMBIOS
  table (walked by `framework_lib`/`dmidecode`).
- `src/pd_ports.rs` – description of each USB-PD port and the placement of
  the embedded controller's ports into the four physical USB-C slots,
  with the laws of that placement.
- `src/info.rs` – `FrameworkInfo`, everything the screen shows.
- `app/lib.rs` – conversion of `framework_lib`'s readings into the model,
  and the fractional figures (capacity loss, volts).
