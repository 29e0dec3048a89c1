# riot-rs-embassy (verified core)

The architecture-independent core of an embedded operating system's Embassy integration,
written in Verus. Verus proves the executable functions in `src/` against their contracts (the
methods of a trait impl against the contract of the trait's method); the few wrappers around
outside calls (`sendcell`, `rate`, `range_bounds`) are trusted, and their doc comments say what
is assumed.

## Layout

- `src/` — the verified library.
  - `gpio` — levels, pulls, portable drive strengths and speeds, and the input and output
    builders, generic over an architecture (`GpioArch`).
  - `i2c`, `spi` — bus errors and their kinds, frequencies, SPI modes (clock polarity and phase),
    and `highest_freq_in`, which picks the highest available bus frequency within a range.
  - `extint_registry` — registries of the external-interrupt channels (a counter on nRF, one
    channel per pin number on STM32).
  - `startup` — which feature sets can be built, and the order of the start-up steps for a
    given architecture and feature set.
  - `sendcell` — cells whose content is only handed out on the executor that created them.
  - `application`, `usb`, `network` — start-up errors, peripheral taking, the default USB
    settings and buffer sizes, the USB Ethernet MAC addresses, and the network stack's settings.
  - `arch` — the stand-in architecture used when no hardware is selected.
  - `esp`, `nrf`, `rp2040`, `stm32`, `hal_esp` — what each architecture maps the portable
    settings to: drive strengths, speeds, bus frequencies in hertz, driver error mapping, and the
    decisions of the nRF temperature sensor and the ESP32 Wi-Fi connection task.
  - `range_bounds` — the contracts assumed for `RangeInclusive::start` and `end`.
  - `rate` — frequencies in hertz computed with `fugit`'s rate type.
- `tests/` — tests on concrete values, run against the compiled library.
- `app/` — unverified glue: conversions into embedded-HAL, fugit and Embassy USB types, the I2C
  timeout race, the spawner cell, the delegate, the shared interrupt-channel registries, the
  runner of the start-up plan and the system task's steps, the shared temperature sensor, and
  the task that drives the Wi-Fi connection.
