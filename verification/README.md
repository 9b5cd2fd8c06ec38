# idalib

A verified model of a disassembler database's view of a program.

- `src/insn.rs`: decoded instructions (`Insn`) and their operands
  (`Operand`), held as the records the disassembler fills in, with
  accessors whose contracts say exactly which field each reading returns
  and when; operand type and data type codes.
- `src/insn/flags.rs`: operand flags, return-query flags and canonical
  instruction features as bit sets.
- `src/insn/segpref.rs`: typed readings of the raw segment prefix byte for
  each processor family.
- `src/entry.rs`: the walk over the database's entry-point listing,
  skipping listed entries that have no address.
- `app/`: the calls that only a live database can answer (behind the
  `Database` trait), `bitflags` forms of the flag sets, and the standard
  `Iterator` over entry points.
