# charset_worker

Character-encoding detection and UTF-8 transcoding for DuckDB, served by the
`charset` worker over Apache Arrow: detect the encoding of raw bytes (a
byte-order mark first, then the `chardetng` heuristic), decode bytes to UTF-8
(auto-detected, or with an explicit label and no detection at all), encode
UTF-8 into a legacy encoding or into UTF-16 of either byte order, repair double-encoded mojibake (`CafÃ©` to `Café`), check UTF-8
validity, and list the supported encodings.

The library under `src/` is verified with Verus:

- `charset.rs` — the engine, with contracts over the results of `encoding_rs`
  and `chardetng`, which `codec.rs` names; `utf8.rs` checks UTF-8
  well-formedness against vstd's definition of UTF-8, and `utf16.rs` writes
  UTF-16 code units in either byte order.
- `laws.rs` — properties across functions: a byte-order mark decides
  detection, `to_utf8` reads unmarked bytes as the detected encoding,
  every canonical name is a label of its own encoding, empty input has no
  encoding, unknown labels are rejected alike, mojibake repair only ever
  reduces the mojibake markers and undoes a Windows-1252 misreading, UTF-16
  output reads back losslessly, and the JSON that the metadata carries reads
  back exactly.
- `scalar/`, `table.rs`, `catalog.rs`, `meta.rs`, `function.rs` — the worker's
  functions row by row, with their descriptions and discovery tags.

`app/` is the worker binary: it reads Arrow columns, calls the library, and
writes Arrow columns, and it turns the library's confidence measure into the
`detect_confidence` DOUBLE.
