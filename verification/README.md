# rustwood

Verified core of the rustwood ESP32-S3 motor controller firmware.

- `src/` is the library, verified with Verus:
  - `lib.rs`: `RgbColor` and brightness scaling, the motor `LedConfig` and its defaults.
  - `neopixel.rs`: the WS2812 GRB bit stream and the RMT pulse frame for a colour.
  - `servo.rs`: throttle to angle, angle to pulse width, pulse width to PWM duty.
  - `storage.rs`: the flash sector layout (magic, version, lengths, checksum, identity, payload).
  - `web.rs`: what the configuration form does to the live configuration.
  - `monitor.rs`: the switch-driven motor sequence as a state machine.
  - `pwm_led.rs`: the single PWM LED variant: its configuration, form and sequence.
- `app/` is the firmware around it: hardware set-up, flash I/O and postcard
  encoding, the WiFi access point, the HTTP server, and the task loops that
  carry out the commands the state machines return.
- `tests/` runs the library on concrete values.
