# cores3

Board support for the M5Stack CoreS3 (ESP32-S3), split in two:

- `src/` is the verified library. It holds everything the board decides or
  computes: the register sequences and the decoding of each chip on the
  internal I2C bus (`drivers`), the RTC's BCD time (`time`), the camera's
  YCbCr to RGB565 conversion (`color`), the frame capture and audio playback state
  machines and the audio sample encoding (`board`), the console's chunked output (`print`) and
  the error types (`error`, `firmware::error`). Verus proves each function
  against its contract. The busy-wait delays state only how many spins they
  make, since elapsed time is not something Verus models, and the `From`
  conversions are stated through their spec impls and the lemmas beside them.
- `app/` drives real hardware with `esp-hal`: it performs the I2C, SPI, DMA and
  GPIO transfers that the library's steps and actions describe.
