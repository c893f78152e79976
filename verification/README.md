# price_monitor

A terminal program that follows the price of a token on a web page, with
menus to change its settings, sounds, logs and desktop notifications.

- `src/` is the verified library, checked by Verus: the settings and their
  defaults, the token table and its sorted views, the state machines of the
  menu screens, of the monitor's keys and of the dialog boxes, and the text
  that the screens show.
- `app/` is the program around it: terminal drawing, the browser session,
  audio, files, threads, and the price arithmetic, which is floating point.
- `tests/` runs the library on concrete values.
