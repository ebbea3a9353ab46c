# lv2_smoketest

Inspection and smoke-testing of installed LV2 plugins, as a verified library
with a thin command-line program around it.

- `src/` is the library, verified with Verus:
  - `text.rs`: decimal and boolean rendering, joining, and Rust's byte-wise
    string order, with its laws (reflexive, total, antisymmetric, transitive).
  - `node.rs`: an RDF node as the plain values its accessors report, and its
    rendering as text.
  - `extras.rs`: `RawExtras`, an ordered map from names to string lists.
  - `model.rs`: the reports (`PluginMetadata`, `PluginSummary`, ...) and what
    is read from a plugin's description to build them.
  - `extract.rs`: building the report of a plugin and of its ports.
  - `summaries.rs`: the list of installed plugins, stably sorted by URI.
  - `run.rs`: the decisions of a test run, as a state machine that the caller
    drives; `error.rs`: the refusals and their messages.
  - `laws.rs`: properties that span several functions.
- `app/` is the program: the command line, the LV2 host calls (through the
  `lilv` crate, which needs the system's liblilv), the values that are
  floating-point numbers (port ranges, control values, audio buffers), and
  JSON output.
- `tests/` exercises the library on concrete values.
