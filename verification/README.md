# zcore

The verified core of a small aarch64 Zircon-style kernel.

- `src/` is the library, verified with Verus: PCI configuration addresses
  (`pci`), data-cache maintenance walks (`cache`), counter-based delays
  (`delay`), the user register context and trap decoding (`context`), the
  init-process loader and its trap dispatch (`loader`), the debug console
  system calls (`debug`), and the OpenCV cross-build decisions (`xtask`).
- `app/` holds what cannot be verified: volatile MMIO, the aarch64 cache,
  barrier and counter instructions, the switch into user mode, the async run
  loop over the kernel's thread objects, and the build commands.
- `tests/` exercises the library on concrete values.
