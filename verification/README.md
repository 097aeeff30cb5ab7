# ad_astra

The runtime core of the Ad Astra script engine, written in Verus. The
functions in `src/` carry contracts that Verus proves, with one exception:
the few wrappers around outside code (the `ahash` calls in `hashing.rs`;
`push_char`, `debug_str` and `utf8_error` in `text.rs`; `vec_capacity` and
`vec_shrink_to` in `stack.rs`) are marked `external_body`, and Verus
believes their contracts without proof.

## Layout

- `borrow.rs`: the borrow stacks and tables that decide which accesses to a
  data object may be active at the same time.
- `memory.rs`, `cell.rs`: descriptions of the memory slices the engine
  manages, their grants, and the cells that point to them: borrowing their
  data, checking what can be taken out of them (moved when a cell is the
  only reference to owned data, cloned otherwise), and projecting them into
  subslices, UTF-8 text and other pointers.
- `registry.rs`: the owned allocations by the address of their data;
  `MemoryRegistry::register_raw_slice` lets raw data of the same type and
  length share such an allocation. The projections in `cell.rs` and
  `memory.rs` (subslices, UTF-8 text, pointers) always describe a new
  allocation and do not consult it.
- `stack.rs`, `engine.rs`: the interpreter stack, the turns of the
  interpreter loop (the hook's interruption, the end of the commands, the
  dispatch of the commands that only move or copy cells or change the
  command index) and
  the conditions of conditional jumps.
- `assembly.rs`, `function.rs`: compiled script functions, the origins of
  their commands, their listings, their contexts and arguments.
- `object.rs`, `operators.rs`: dispatch of script operators to the operators
  that exported types declare, with the compound assignment and ordering
  fallbacks.
- `error.rs`, `description.rs`: runtime errors, their origins, messages and
  summaries.
- `intrinsics.rs`: the canonical assignment and array constructor that
  exported types may use as their operators.
- `slicing.rs`: index and range resolution, character ranges of UTF-8 text.
- `text.rs`: decimal numbers, quoting, indentation, lexicographic order and
  sorting of texts.
- `hashing.rs`: the `ahash` sets and maps used when describing expected types.

`app/` holds the per-thread state (the interpreter stack and the evaluation
hook), the loop that runs a script function on them, the `Display` form of
runtime errors and the type-erased helpers that Verus does not take.
