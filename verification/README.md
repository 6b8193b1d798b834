# hlsl_validator

A language server for HLSL, Unity ShaderLab and Unreal shader files, whose
language logic is a library verified with Verus.

- `src/` — the verified library: the lexical scans (comments, strings,
  words, calls), the symbol scanners (functions, parameters, locals,
  variables, structs, ShaderLab properties), type inference, the ShaderLab
  checks (properties, tags, render states, pragmas, includes), the DXC job
  plan and the mapping of its output, signature help, hover, go-to
  definition, completion, document symbols, formatting, the documentation
  tables, and the rules by which the editor extension finds its binaries.
  Every function states its result in `ensures` over spec functions;
  `laws.rs` holds the properties that span several functions.
- `app/` — the server program around the library: the LSP loop on stdin and
  stdout, the document cache, reading included files, running DXC, the
  comparisons of numbers written in property declarations, the JSON forms of
  the results, and the Zed extension glue.
- `tests/` — tests of the library on concrete inputs.
