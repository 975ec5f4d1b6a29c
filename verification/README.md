# nova_core

The verified core of the nova-core GPU driver.

- `src/` is the library, checked by Verus:
  - `layout`: little-endian field access over byte buffers, with the laws of reading
    back what was written;
  - `nvfw::r570_133_07`: views of the GSP firmware interface structures and their
    constants;
  - `vbios`: parsing of the VBIOS ROM images (ROM header, PCIR, NPDE, BIT) and the scan
    of the ROM as a state machine that asks for the ROM bytes it needs;
  - `timer`: timestamps, timer reads and the decisions of a wait with a timeout;
  - `vfn`: interrupt numbering, register writes and decisions of the interrupt block;
  - `sec2`, `rm_riscv`, `rm`, `regs`, `vgpu_mgr`: firmware layout, RM messages, register
    fields and vGPU manager decisions;
  - `error`: the error codes.
- `app/` drives the library against the hardware: BAR0 accesses, the ROM reads of the
  VBIOS probe, the timer and wait loops, the interrupt handlers and the RM command queue.
- `tests/` runs the library on concrete values.
