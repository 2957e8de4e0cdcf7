# arion_engine

Shared definitions of the Arion emulation engine, verified with Verus.

- `src/common/config.rs`: the engine configuration record (`Config`), its
  constructor `new_config` and the `is_enable_sleep_syscalls` query.
- `src/common/global_def.rs`: engine constants, the address/register type
  aliases, the `RVAL` register-value union, the `SEGMENT` and `SIGNAL` records,
  and the `LINKAGE_TYPE`, `CPU_ARCH` and `ARION_LOG_LEVEL` enumerations with the
  numbers that stand for their variants across the C interface, plus the lemmas
  about those numbers and the limit constants.
- `tests/`: executable tests of the same items.
