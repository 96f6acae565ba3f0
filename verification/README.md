# tubereng

The core of a small game engine, written in Verus. The functions in `src/` carry contracts
that the verifier proves, except the thin wrappers around outside crates and std (marked
`#[verifier::external_body]`, or given by `assume_specification`), whose contracts the
verifier takes on trust; each one's doc comment says what it claims of the call it makes.

- `ecs`, `world`, `graph`: entity storage, component stores with presence and dirty bits,
  relationships between entities and the walks over them, command queues, events, queries
  and system schedules.
- `type_key`: the key of a type (a hash of its `TypeId`), under which relationship kinds and
  schedule stages are filed; the functions that take a key state what is done with it.
- `math`: generic vectors and 4x4 matrices.
- `input`: keyboard and mouse button state.
- `graphics`: WGSL shader introspection (global variables with their group and binding,
  bind group layouts), materials and shader assets.
- `asset`, `assets`, `picture`, `renderer`, `gltf`, `obj`, `text`: asset handles and stores,
  image decoding, caches of GPU resources, mesh index decoding, OBJ faces and text helpers.

`app/` holds what the verifier does not take: file access, type-erased asset stores, RON
assets, floating-point math and OBJ vertices. `tests/` exercises the library.
