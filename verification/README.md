# playwright (value decoding)

Decoding of the tagged JSON value encoding (`{"n": ..}`, `{"s": ..}`, `{"b": ..}`,
`{"a": [..]}`, `{"o": [{"k": .., "v": ..}]}`, `{"v": "Infinity" | "-Infinity" | "-0" |
"NaN" | "undefined" | "null" | ..}`), verified with Verus.

- `src/value.rs`: the JSON value model and its accessors.
- `src/rules.rs`: what each kind of read finds in a value, as spec functions.
- `src/de.rs`: the deserializer's stack and one verified operation per kind of read.
- `src/access.rs`: cursors over arrays, objects, key/value pair lists and enums.
- `src/laws.rs`: properties of the rules as a whole.
- `src/error.rs`, `src/route.rs`: the error type and the route object.
- `app/lib.rs`: serde's `Deserializer` driven by the library, and the conversion
  from `serde_json::Value`.
