# zephyr (verified core)

Rust drivers for Zephyr's generic device APIs (fuel gauge, PWM fans, RTC,
UART) and the ODP sample services built on them, split in two:

- `src/` — the verified library (Verus): sensor value types, Zephyr return
  codes, the Smart Battery unit and capacity-mode conversions of the fuel
  gauge, the battery update schedule, PWM fan configuration and RPM
  bookkeeping, UART line settings, the UART ring buffers (heapless SPSC
  queues) and the interrupt handler's step function, and RTC date-time
  conversion and validation.
- `app/` — the Zephyr C API, the device wrappers that call it, the
  embedded-batteries / embedded-fans / embedded-io trait impls, the
  floating-point fan duty-cycle arithmetic, and the sample tasks.
- `tests/` — tests of the library on concrete values.
