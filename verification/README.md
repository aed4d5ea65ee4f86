# notifications

The rules of a cross-platform notification plugin, written in Verus and
proved: the notification data and its builders, schedules and their
delivery times, the registry of action types, the Windows toast document and
its XML text, Windows time and tag conversions, and the replies of the
native bridges.

- `src/` — the verified library (`models`, `actions`, `channel`, `xml`,
  `toast`, `windows`, `desktop`, `macos`, `commands`, `error`, `text`).
- `tests/` — tests run against the compiled library.
- `app/` — ordinary Rust around it: the JSON wire format (serde), the desktop
  notification service (notify-rust), and the Windows runtime calls.
