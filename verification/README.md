# nano_core

The boot-time logic of a small x86_64 kernel, verified with Verus.

- `src/boot.rs`: the bring-up of the bootstrap processor as a state machine, with
  the laws that every step runs once, in order, and that a failed step stops the
  bring-up for good.
- `src/page_table.rs`: the teardown of the boot-time identity mapping in the P4 table.
- `src/layout.rs`: higher-half address arithmetic.
- `src/threads.rs`: what the first kernel threads compute (report lines, exit
  values, test-loop marks) and the message-bus operations they perform, in order;
  the bus traffic, printing and endless loops themselves are in `app/`.
- `src/panic.rs`: the panic report, with a verified decimal rendering of the line number.
- `app/`: the machine-facing side that performs the steps (interrupt control,
  multiboot2 information, logging) against the kernel's subsystems.
