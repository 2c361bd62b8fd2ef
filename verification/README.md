# ones_riscv

The verified core of a small RISC-V (SV39, RV64) kernel, written in Verus.

`src/` is the library; every function in it carries a contract that Verus proves:

- `memory`: addresses and page numbers, page flags, the bit layout of SV39 page-table
  entries (`memory::page::entry`) and the split of a page number into table indices.
- `cpu`: `satp` values, the user-mode `sstatus`, saved register files and the timer.
- `intervene`: decoding of `scause`, the per-thread trap data, the user context and the
  addresses that trap handling installs.
- `concurrency`: threads, processes, the mappings that build their page tables, and the
  scheduler's state machine with its invariant.
- `peripheral`, `runtime`, `system_call`: interrupt-controller set-up, start-up (the
  kernel image's segments, the device regions, the kernel process and its mappings), and
  the system calls.
- `logger`: the log level chosen by the name given in `LOG`.

`app/` reads and writes the hart's registers, calls the SBI, holds the global scheduler
and the logger; it hands plain values to the library and acts on what comes back.
`tests/` runs the library on concrete values.
