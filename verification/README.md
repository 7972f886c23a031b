# libddwaf (verified object model)

A Verus library for the data exchanged with Datadog's in-app WAF: the typed
objects it reads and writes, their equality, copies and debug renderings, map
lookups, and the meaning of an evaluation's status code and output.

Layout:

- `src/object.rs`: `WafObject` and its typed views (`WafSigned`, `WafString`,
  `WafArray`, `WafMap`, `Keyed`, ...), their mathematical model (closed spec
  accessors), equality (`obj_eq`), reading and writing objects, iteration, map
  lookups (`first_match`), owned objects and error messages; with
  - `src/object/clone.rs`: deep copies (`clone_of`),
  - `src/object/convert.rs`: default values and conversions,
  - `src/object/debug.rs`: the debug renderings (`debug_text`, `raw_debug_text`),
  - `src/object/laws.rs`: the laws of equality, conversions and lookups.
- `src/raw.rs`: the WAF's type tags and status codes, and the tag-level view of
  an object (`obj_type`, `is_string`).
- `src/context.rs`: decoding a run's status code and reading its output map.
- `src/text.rs`: decimal and escaped renderings, and the std string operations
  the library relies on.

Doubles are held by their IEEE-754 bits; wherever a double is rendered as text,
the caller supplies the formatter.

The tests under `tests/` exercise the library on concrete values.
