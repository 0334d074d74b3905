# wasmrs

A WebAssembly module decoder, validator and runtime, verified with Verus.

- `src/binary/`: the binary format: LEB128 numbers, the reader, the sections
  and the module, each decoder with a contract over a model of the bytes.
- `src/instructions.rs`: instructions and their decoding.
- `src/validation.rs`: the validator, as a model of the operand and control
  stacks and a checker proved to follow it.
- `src/runtime/`: the store, module instances and the registry,
  instantiation (linking imports, allocating, initializing tables and
  memories), and the executor, whose `Runtime::step` runs one instruction
  against the model in `machine.rs`.
- `src/text.rs`: decimal and hexadecimal rendering for error messages.
- `app/`: the command-line program, and the loop that runs an invocation:
  it calls `Runtime::step` and performs what a step hands back, calls of host
  functions and floating-point instructions.
