# alarum

A desktop alarm clock. The library (`src/`) holds its logic, verified with Verus:

- `calendar`: instants (`Moment`), day numbers and weekdays, and the two calls into
  chrono's local clock (the local date of an instant, the instant of a local clock reading).
- `text`: decimal numerals and Unicode whitespace trimming.
- `model`: repeat settings, alarms, the alarm store, 12/24-hour conversion and clock texts.
- `schedule`: when an alarm is due (`should_fire`, `fires_among`) and when it rings next
  (`next_trigger`, `upcoming_among`), with the laws that relate them.
- `ordering`: stable sorting of alarms by clock time.
- `session`: the application's state and its changes (ringing, dismissing, snoozing,
  polling, editing).
- `audio`: the WAV container of the built-in sound and the external programs to run.

`app/` is the window (eframe), the sound player and notification processes, and the JSON
file on disk (serde).
