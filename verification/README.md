# runtime-factors

A Spin-based WebAssembly host runtime, with its decisions verified by Verus.

- `src/` is the verified library:
  - `networking`: the report a host gives when a component tries to reach a
    network destination that its manifest does not allow;
  - `guest`: how the example guest answers an HTTP request;
  - `factor`: the application's own factor, which never fails;
  - `settings`: the application manifest and the instance settings that the
    host hands to the runtime;
  - `text`: character-level string predicates used by the above.
- `app/` holds the programs: the Spin HTTP host (default), the plain Wasmtime
  host (`basic`) and the factors probe (`probe`). They print, load files and
  drive the Spin and Wasmtime runtimes, taking every decision from `src/`.
- `tests/` runs the library on concrete values.
