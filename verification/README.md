# saturn_core

The logic of a Sega Saturn core, with contracts that Verus proves.

- `src/` is the library: the SH-2 interpreter with its bus and on-chip modules, the SMPC,
  VDP1, the VDP2 pixel pipeline, the synchroniser between cores, pacing, and picture files.
  It is sequential. Time, threads and files come from outside as plain values.
- `app/` is a frontend around it: the command line, a window, threads and files.
- `tests/` runs the library on concrete values.

The models that the contracts speak of stand beside the code: `Machine` and `BusView` for
the processor and its bus, `Memory` for the memories, `SmpcView`, `FrameView`, `SyncView`.
Properties that relate several operations are public proof functions, most of them in the
files whose names end in `laws`. Delay slots and DMA transfers that nest deeper than
`sh2::store::NESTING_LIMIT` are cut off, which the bus notes in `nesting_overrun`.

What is taken on trust is marked `external_body`: the slots that hold the frame on display
(`arc_swap`) and the PNG encoder (`png`).
