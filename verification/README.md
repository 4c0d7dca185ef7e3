# sensirion_slf

Driver core for the Sensirion SLF3S liquid flow sensors, verified with Verus,
and the firmware of a pocket flow meter built on it (a LilyGo T-Display-S3).

- `src/crc8.rs`: the CRC-8 (NRSC-5 variant) that protects every data word,
  with its definition as a spec function and the residue law.
- `src/command.rs`: the sensor commands and their big-endian encoding.
- `src/driver.rs`: framing of commands and arguments, and the `SLF3S` driver
  over any embedded-hal I2C bus.
- `src/bus.rs`: the I2C bus behind the driver. Its two transfer methods are the
  only code that calls the bus, and their contracts add each call, with its
  address and bytes, to a ghost record of the transfers; the driver's
  contracts are stated over that record.
- `src/identifier.rs`: the sensor's product identifier (six CRC-checked words)
  and the models recognised by their product numbers.
- `src/sensor.rs`: the measurement mode (water or isopropyl alcohol) chosen on the device.
- `app/`: the ESP32-S3 firmware: hardware setup, buttons, display, and the
  waits the sensor needs between commands.
- `tests/`: tests of the library, the bus simulated by embedded-hal-mock.
