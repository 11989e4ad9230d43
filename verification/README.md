# soil_sensor_core

Firmware logic of a Matter-over-Thread capacitive soil-moisture sensor
(Seeed XIAO ESP32-C6 soil kit), written in Verus and proved against its
contracts.

- `src/` is the verified library:
  - `percent` - millivolt-to-percent conversion for the probe and the AA cell,
    with its laws (reference points, clamping, monotonicity);
  - `sampling` - averaging of ADC reads into one measurement;
  - `calibration` - stored dry/wet references and the calibration flow as a
    state machine (previous references stay in effect on any error);
  - `button` - single press / triple click / long hold recogniser as a state
    machine, with its gesture laws;
  - `status_led` - moisture classes and blink patterns as step sequences;
  - `clusters` - state of the `SoilMeasurement` and `PowerSource` clusters and
    when a new reading is worth a subscription report;
  - `sensor` - routing of button events, what a sample request does, and the
    commissioning discriminator and EUI-64;
  - `config` - board tunables.
- `app/` is the ESP32-C6 firmware around it (esp-hal, embassy, rs-matter):
  GPIO, ADC, flash, timers and the Matter stack. It performs the I/O the
  library's state machines ask for.
- `tests/` runs the library on concrete values.
