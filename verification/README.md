# syster

A library for SysML v2 and KerML models, verified with Verus.

- `src/` is the verified library:
  - the interchange model: elements, relationships and their ownership;
  - reading and writing models as JSON-LD values and as XMI tags and events;
  - the laws that tie reading back to writing;
  - a lossless syntax tree with typed accessors;
  - a token parser with the KerML expression grammar and some SysML member rules;
  - source maps;
  - the symbols an analysis index holds of a model.
- `app/` turns bytes into the library's values and back, through `serde_json` and `quick_xml`. It does this where numbers are read as floating point, which the library does not hold.
- `tests/` runs the library on concrete inputs.
