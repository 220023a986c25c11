# polars_lite

Pieces of a columnar query engine, written in Verus with their behaviour stated as
contracts and proved.

- `src/datatypes.rs`, `src/bitmap.rs`, `src/array.rs`: data types, validity masks and
  the child arrays of list arrays.
- `src/fixed_size_list.rs`: arrays whose slots are null or lists of a fixed number of
  items; construction checks, slicing and splitting, with laws relating the slots
  before and after.
- `src/sources.rs`, `src/scan_sources.rs`: the paths, open files and buffers a scan
  reads from, single sources and their round trip through sets, path expansion and
  the choice of where bytes are read from.
- `src/frame.rs`, `src/apply.rs`: applying a row-wise function to a table: inferring
  the output type from the first result that is not None and assembling the output.
- `src/sinks.rs`: sink settings.

`app/` holds what runs outside the verifier: file and environment access, the calls
into the Python interpreter, error messages and serialisable copies of the types.
