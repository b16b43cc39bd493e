# assembler

A verified x86-64 machine code assembler. Each instruction method appends its
encoding to the code buffer of an `Assembler`, and its contract states the
exact bytes appended, as a function of the operands and of the target
configuration (`CpuFeatures`: SSE only, AVX, AVX2 or AVX-512). Instructions
whose data word refers to code or data elsewhere also record a relocation
(its type, at the instruction's start) in the assembler's relocation list.

Layout of `src/`:

- `registers`, `address`, `label`, `instruction`: operands and branch targets.
- `features`: the target configuration and the extensions it enables.
- `attributes`: the per-instruction attributes that steer VEX/EVEX encoding.
- `encoding`: the encodings as spec functions (REX, ModRM/SIB/displacement,
  legacy SSE, VEX and EVEX prefixes).
- `assembler`, `operands`, `simd`: the code buffer and the verified emitters
  of prefixes and operands.
- `instructions/*`: the instruction set, grouped by kind.
- `nops`: padding of any length.
- `laws`: decoders for the encodings and the proofs that they read back what
  was encoded (memory operands, register operands, REX, VEX and EVEX
  prefixes, immediates, branch displacements).
