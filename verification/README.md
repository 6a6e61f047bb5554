# xregs1024

A verified transpiler extension for the XRegs1024 encoding of RISC-V, in which every
instruction takes two 32-bit words and register indices are 10 bits wide. It turns the next
words of an instruction stream into OpenVM instructions.

- `src/bits.rs`: bit fields and the immediates of each instruction format.
- `src/decode.rs`: splitting a word pair into its fields; the encoding it inverts.
- `src/opcodes.rs`: RISC-V major opcodes and the global opcode numbers of the VM instructions.
- `src/instruction.rs`: VM instructions with integer operands, one builder per format.
- `src/transpile.rs`: the extension itself, its specification and its laws.
- `app/`: the `openvm_transpiler::TranspilerExtension` implementation, which maps the integer
  operands into the VM's field.
