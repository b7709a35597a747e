# damsel_core

The core of `damsel`, a static Mach-O analysis tool for Apple Silicon
binaries, written in Verus: every function in `src/` carries a contract that
the verifier proves.

## Layout

- `src/model.rs`, `src/image.rs`: the typed model of a loaded binary
  (segments, sections, symbols, imports, relocations) and lookups into its
  bytes by file offset, section or virtual address.
- `src/decode.rs`: AArch64 decoding. Capstone does the instruction decoding
  behind a handful of trusted wrappers; operand mapping, reference
  derivation (including calls and branches through a register), limits,
  the fixed four-byte width and annotations are verified.
- `src/compat.rs`, `src/doctor.rs`, `src/probe.rs`: the host-compatibility
  policy (support matrix, tool requirements) and the `doctor` evaluation.
- `src/cli.rs`, `src/disasm.rs`, `src/listing.rs`, `src/parse.rs`,
  `src/sort.rs`: command planning, filters, stable sorts and argument parsing.
- `src/json.rs`, `src/report.rs`, `src/plain.rs`, `src/text.rs`: JSON and
  plain-text rendering, each specified character by character.
- `src/json_read.rs`: a JSON reader, as a specification, and the proof that
  rendered JSON, compact or indented, reads back as the value rendered.
- `src/objc.rs`, `src/dyld.rs`, `src/info.rs`: the Objective-C and
  dynamic-linker views (which records a listing keeps, in which order; the
  filters on categories by how they were found, and on exports by kind and
  flag), the image summary and the slices of the file, with their JSON and
  text forms.
- `src/web.rs`: the decisions behind the browser interface.
- `app/`: the command-line program, host probing and the HTTP server, which
  call into the library.
- `tests/`: tests of the library on concrete values.

## Laws

Besides the contracts of the functions, the library proves properties that
span several calls as public proof functions, among them: the stable sort
orders by key, keeps every item and keeps ties in input order; names of
platforms, architectures and capabilities read back after printing;
addresses printed in hexadecimal or decimal (padded or not) read back;
escaped JSON strings hold no control character and read back as the text
they were written from; a rendered JSON value, compact or indented, reads
back as the same tree; a decoding limit only cuts decoding short; and the
suggestions offered for a query all name matching symbols.
