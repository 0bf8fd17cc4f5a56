# belugasnooze

The client that runs on a Raspberry Pi with a Blinkt led strip: it keeps a schedule
of wake-up alarms in SQLite, lights the strip gradually when an alarm is due, and
takes its instructions over a websocket.

- `src/` is the verified library: the alarm schedule and the decision of the alarm
  loop, the light's limits and its alarm sequence, the rainbow greeting, the
  connection bookkeeping, the handling of requests and internal messages, and the
  text processing of the system information.
- `app/` is the program around it: the database, the websocket, the clock, the led
  hardware and the JSON forms of the messages.
- `tests/` runs the library on concrete values.
