# decker

Decker turns gamepad input into document-viewer control: buttons are mapped
to page turns, scrolling, zooming, full screen and highlighting; the left
stick moves the mouse pointer and the right stick drags out a text
selection.  Input is injected with `xdotool`.

- `src/` is the library, verified with Verus: the mapping tables
  (`table`, `config`), gamepad event tracking (`controller`), the action
  layer (`action`), the `xdotool` command lines and mouse-button tracking
  (`input`), fixed-point helpers (`analog`) and text helpers (`text`).
- `app/` is the daemon around it: the configuration file (TOML via serde,
  in the XDG config directory), the gamepad devices (gilrs), running
  `xdotool`, logging and the polling loop.

Analog quantities are fixed-point integers in millionths of a unit: a stick
deflection of `1.0` is `1_000_000`, the default dead zone `0.15` is
`150_000`, and cursor displacements are in millionths of a pixel.  The
daemon converts the floating-point values of the configuration file and of
the gamepad library at its edge.
