# h1_usb

Driver logic for the USB controller of the H1 chip (Synopsys DesignWare USB 2.0,
device mode, scatter-gather DMA), verified with Verus. The device enumerates over
endpoint 0 and exchanges U2F frames with its host over endpoint 1.

The logic does not touch the hardware. It gets what the hardware shows (register
values, descriptor flags, received words) as arguments, and yields a list of
actions (register writes, stores to shared memory, callbacks) to be carried out in
order.

- `src/usb.rs`: the state of the driver and its invariant.
- `src/handler.rs`: interrupts. `src/endpoint0.rs`, `src/setup.rs`: control
  transfers and the requests of the host. `src/endpoint1.rs`: U2F frames.
  `src/init.rs`: bringing up the controller.
- `src/request.rs`, `src/descriptor.rs`, `src/bytes.rs`: SETUP packets, USB
  descriptors and their wire format.
- `src/action.rs`, `src/bank.rs`: the actions, and what they leave in registers
  and memory.
- `src/laws.rs`, `src/laws/`: what holds of the driver as a whole.
- `app/`: registers, shared memory and callbacks around the logic.
- `tests/`: tests on concrete values.

Requests that the driver does not support are fatal. `USB::accepts_interrupt`
tells beforehand whether an interrupt brings one.
