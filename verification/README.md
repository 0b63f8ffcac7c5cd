# moustache_control_center

The core of the Moustache Control Center overlay (performance, audio mixer and
notification panels), written in Verus with its behaviour proved.

- `src/` — the verified library: the settings model (`models`, `content`),
  normalisation and defaults (`settings`, `text`), panel sizing and placement
  (`layout`), launch and toggle decisions (`panels`), the notification feed
  (`notifications`) with its random identifiers (`ids`), the capability report (`capabilities`), the integer parts
  of metric collection (`metrics`, `ranking`), the checks around the native
  audio calls (`native_abi`) and the clock reading (`clock`).
- `tests/` — tests of the library on concrete values.
- `app/` — the Tauri shell: windows, commands, settings file I/O, the native
  DLL loader, the `sysinfo` fallback collector and the serialisable copies of
  the library's types. Floating-point values (opacity, scale, CPU shares,
  rates) are handled there.
