# aarch64_boot

The decisions of an AArch64 boot stage, verified with Verus.

- `src/esr.rs`: decoding of the exception syndrome (class, fault status code,
  fault kind and its name).
- `src/exception.rs`: the saved exception frame, the vector names, and the
  handler: what it reports and whether it resumes.
- `src/descriptor.rs`: translation-table descriptors, how they are written and
  how the hardware reads them.
- `src/mmu.rs`: the identity map, the linear map, the out-of-range test
  mapping, and the translation-control values.
- `src/walk.rs`: a model of the table walk of the regimes the boot code sets
  up, and the laws the tables obey under it.
- `app/`: the hardware side: entry and vector assembly, system-register
  writes, console output of the handler's report.
- `tests/`: executable tests on concrete values.
