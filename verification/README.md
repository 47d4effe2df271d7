# rasmus

An interpreter of WebAssembly modules: a parser of the binary format, the runtime
structures (store, stack, module instances) and the execution of instructions.

- `src/` is the library, written in Verus: every function carries a contract that
  the verifier proves. `binary/` parses modules, `entities/` holds the syntax of
  modules and instructions, `instances/` the runtime structures, `execute/` the
  instructions, and `controller.rs` resolves imports and calls an exported function.
- Floating-point arithmetic is not modelled: the library hands bit patterns to an
  implementation of `execute::float::FloatOps` and takes bit patterns back.
- `app/` is the command-line program: it reads module files, provides the float
  arithmetic of the machine, instantiates the modules and runs `factorial`.
- `tests/` runs the library on concrete inputs.
