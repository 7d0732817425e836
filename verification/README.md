# honeybee

A status line for i3bar (and for dzen2, xmobar, lemonbar and terminals), in
the manner of i3status, configured with TOML.

The crate is in two parts:

- `src/` is the library, verified with Verus: byte units, colors, formats and
  placeholders, Pango escaping, widgets and their rendering in each output
  format, the state of the bar, the i3bar blocks of a status line, the search
  order of the configuration file, and what each module reads and decides
  (`/proc/meminfo`, battery `uevent` files, disk thresholds, time zones, pid
  files, file contents, volume and wireless state).
- `app/` is the program around it: the command line, reading the
  configuration, the modules' loops, the system calls and netlink queries,
  the floating-point figures, and writing the status line.

The configuration file is looked for in these places, in order:

1. `$XDG_CONFIG_HOME/honeybee/config.toml`
2. `$XDG_DATA_HOME/honeybee/config.toml`
3. `$HOME/.honeybee.toml`
4. `$XDG_DATA_DIRS/honeybee/config.toml`
5. `$XDG_CONFIG_DIRS/honeybee/config.toml`
