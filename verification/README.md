# Clam

A Windows tray utility that keeps a laptop awake with its lid shut, and puts
the owner's power settings back afterwards. Left-click the tray icon to switch
stay-awake on (lid-close "Do nothing", idle timeout "Never", on AC and DC);
left-click again to restore the settings captured when it was switched on.

## Layout

- `src/` is the library, verified with Verus:
  - `power.rs`: the settings Clam touches, the values it writes, and the
    read and write jobs that tell the host which power-policy call to make
    next (stopping at the first error).
  - `state.rs`: the captured settings and where the saved-state file lives.
  - `text.rs`: notification texts, tooltips, decimal numbers, UTF-16 and the
    bytes of a `REG_SZ` value.
  - `tray.rs`: the application as a state machine (clicks, menu items,
    launch recovery) and the decoding of window messages, with the laws that
    hold of its runs.
- `app/` is the Windows program around it: the single-instance guard, the
  power-policy, registry and file calls, the icons, the window and the
  message loop.
- `tests/` runs the library, including a pretend host that plays the
  machine's queries against in-memory power settings.
