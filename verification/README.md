# esp32-cam-ov2640 (verified)

OV2640 sensor register driver and portable camera stack primitives, written
in Verus with machine-checked contracts.

Layout:

- `src/` — the verified library.
  - `driver.rs`: sensor types, output configurations, and the register-program
    executor (`Ov2640::advance`), which tracks the selected register bank and
    performs read-modify-write updates.
  - `plans.rs`: the register programs of every sensor operation
    (identification, reset, initialization, output modes, typed controls).
  - `semantics.rs`: what a register program does on the bus, and the proof
    that driving a run step by step does exactly that.
  - `registers.rs`: OV2640 register addresses and bits.
  - `tables.rs`: the register tables (initialization, output-mode and control
    tables), supplied by the caller as data.
  - `frame.rs`, `jpeg.rs`, `queue.rs`, `pipeline.rs`, `traits.rs`: frame
    metadata and storage, JPEG framing, the metadata queue, the capture
    pipeline, and the capture/sink/control traits.
- `tests/` — tests of the library.
- `app/` — the I2C/delay plumbing over `embedded-hal`: runs register programs
  on a bus, implements the sensor traits, and initializes the sensor before
  handing over to `CameraStack::start_after_init`.
