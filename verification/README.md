# salary_tray

A menu-bar ticker that shows how much of the daily salary has been earned so
far. The verified library (`src/`) holds its logic; `app/` is the Tauri
program around it (window, tray icon drawing, settings file, clock).

- `language`: the display languages and their codes ("en", "zh").
- `clock`: times of day, and the chrono calls that read and write them.
- `serde_time`: the "%H:%M" text form of times in the settings file.
- `settings`: the settings, their defaults, how a submitted form updates
  them, and how far the working day has progressed at a time of day.
- `i18n`: the menu texts, loaded into a Fluent bundle.
- `tray`: the tray menu's items and what clicks on the icon and the items do.

The amount earned is `daily_salary * elapsed / workday` while working; that
floating-point step, and the drawing of the amount into the icon, live in
`app/`.
