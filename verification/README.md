# module_setup

Setting up WebAssembly modules around a compiler and a runtime, with the steps stated and proved
in Verus.

A module passes through stages. The library translates a binary, reads its debug information where
that is asked for, copies its data segments, registers its signatures and its debug image, and
gathers what an instance is made of. The driver compiles, links, publishes and profiles between
these steps, resolves imports and creates the instance. Each step takes the stage that the step
before it returned. The stages that the driver works on, a translated module, a module to be
linked and the parts of an instance, have public fields; the others can be reached only by way of
the steps.

- `src/frontend.rs`: from a binary to its translation.
- `src/payload.rs`, `src/support.rs`: the payloads of a binary, and which binaries translation
  supports.
- `src/jit.rs`: modules whose imports are resolved at instantiation.
- `src/linked.rs`: modules whose imports are resolved when they are compiled.
- `src/signatures.rs`: registration of signatures, and trampolines by shared index.
- `src/initializer.rs`, `src/image.rs`, `src/entity.rs`, `src/error.rs`: data segments, debug
  images, dense maps and errors.
- `src/fcntl.rs`: calls of `fcntl` and their replies.
- `src/unwind.rs`: unwind information of AArch64 code.
- `app/`: the drivers, which call the compiler, the profiler, the runtime and the system.
- `tests/`: examples on concrete binaries, registries and replies.

What is believed without proof stands in the functions marked `external_body`; each names the
outside function it calls and says what is claimed of it.
