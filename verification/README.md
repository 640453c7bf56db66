# tock

Verified models of a set of Tock kernel interfaces, capsules and SAM4L chip
drivers, written in Verus.

Every driver is a state machine. What it does to hardware — I2C transfers,
register writes, clock gating, upcalls to processes, callbacks to clients —
is appended in order to an operation log that the platform drains
(`take_ops`, `take_upcalls`) and performs; what the hardware answers comes
back as the argument of the next event (`command_complete`, `fired`).
Contracts state each transition exactly over an abstract view (`@`).

Layout of `src/`:

- `returncode`, `callback`, `driver`: kernel types (return codes, process
  identifiers, callbacks and the upcalls they produce, the system call
  interface of a capsule).
- `hil/`: hardware interface traits and types (DAC, GPIO modes, asynchronous
  GPIO ports and their clients, the I2C operation model, nine degrees of
  freedom sensors, watchdogs).
- `capsules/`: the MCP23008 GPIO extender, the PCA9544A I2C selector, the
  FXOS8700CQ accelerometer, the asynchronous GPIO and DAC system call drivers,
  and a take cell.
- `sam4l/`: the AES accelerator configuration, the watchdog timer, and the
  chip's DMA assignment and interrupt dispatch.

Public proof functions (`lemma_*`) state the laws that relate several
operations, such as reading back saved interrupt settings or a register
update finishing with one `done` callback.
