# bath_monitor

The logic of a bathroom panel that records which family member has bathed
today: five buttons (one per person) with a NeoPixel and a melody each, an
occupancy light sensor, and delivery of presses, cancels and occupancy to a
home server over Wi-Fi.

- `src/` is the verified library (Verus): the outbox of what is owed to the
  server (`outbox`), the NeoPixel look (`led_pattern`, `events`), the button
  and debounce decisions (`buttons`, `debounce`), the melody scheduler
  (`music`) and the integer side of the synth slots (`waveform`), the HTTP
  requests and their outcomes (`http_client`, `text`), the LED-state
  reconciliation (`status_poll`) and the Wi-Fi manager's decisions (`wifi`).
  Laws of the library are public proof functions named `law_*`.
- `app/` is the firmware around it: embassy tasks, the RP2350 peripherals,
  the cyw43 Wi-Fi chip, HTTP through `reqwless`, and the floating-point
  amplitude envelopes of the synth.
- `tests/` exercises the library on concrete values.
