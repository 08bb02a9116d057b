# activityping

The verified core of a desktop activity reporter: it reads the foreground
window and the now-playing media, decides by the user's rules what to report,
builds the Discord presence text, and keeps the local monitor's state and log.

- `src/` — the library, verified with Verus:
  - `text` — trimming, case folding, searching, joining and number parsing, each with its specification;
  - `rules` — capture decisions, the app filter, message rules, templates, presence text per mode, configuration cleaning and activity resolution;
  - `reporter` — the monitor's shared state and one pass of its capture loop;
  - `platform` — what the Linux, macOS and Windows capture tools print, turned into snapshots, media and self-test results;
  - `tray` — quick-switch targets, preset handling and the tray's notices;
  - `state_store` — cleaning the saved state and its histories;
  - `laws` — properties that span functions, proved.
- `tests/` — examples run against the compiled library.
- `app/` — a console front end: running the desktop tools, the monitor's thread and the state file.
