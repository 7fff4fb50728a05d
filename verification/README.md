# servicedash

A terminal dashboard for a set of supervised services, verified with Verus.

- `src/` is the verified library:
  - `model.rs`: services, selection, focus, tabs, help overlay, toasts, the bounded
    log and CPU histories, the simulation tick, the key handling (`handle_key`) and one turn of the event loop (`step`);
    every operation is specified as a transition of `AppView`, and the laws of the
    dashboard are proof functions at the end of the file.
  - `input.rs`: keys and the command each key stands for.
  - `text.rs`: decimal, clock (`HH:MM:SS`) and uptime texts.
  - `theme.rs`: colors, styles, palettes and the semantic theme.
  - `view.rs`: overlay geometry and the texts and styles the screen shows.
  - `layout.rs`: the screen layout, through ratatui's `Layout::split` behind one
    trusted wrapper (`split`), whose contract states only what holds of every result.
- `app/` is the terminal front end (crossterm and ratatui): the event loop, the
  floating-point CPU and memory readings, conversions to the terminal types, and
  drawing.
- `tests/` exercises the library on concrete values.
