# ukernel

The logic of a small RISC-V kernel, verified with Verus.

- `src/` is the verified library: the trap dispatcher of supervisor mode and its messages,
  the address types with their operators and the `align` rounding, page state bits, the
  capability types, the UART logger's record lines and the UART bring-up values, the `satp`
  encodings, the default `Read`/`Write` methods, and the panic report text.
- `app/` holds what touches the machine: control and status registers, memory-mapped UART
  registers, the `extern "C"` trap entry and entry points, and the `log` facade.
- `tests/` runs the library on concrete values.
