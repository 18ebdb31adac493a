# texinfo-to-info, verified

A library that turns Texinfo sources into Info documents, written in Verus
with each function's behaviour stated in its contract and proved. The one
part left open is the base name in the Info header for a path that holds
`\` or `:` or begins with two `/`, where the platform decides how the path
splits and which prefix it has.

- `src/text.rs`: character-level operations (Unicode whitespace, trimming,
  line splitting, decimal numbers, replacement, splitting).
- `src/inline.rs`: expansion of inline markup (`@code{..}`, `@@`, ...).
- `src/model.rs`: the mathematical model of the converter and what each
  command line does to it; laws about commands.
- `src/converter.rs`, `src/reading.rs`: the converter, its command lines,
  and the reading of whole texts (pausing where another file is to be read
  in).
- `src/info.rs`: the Info document and its tag table.
- `src/vars.rs`: the table of `@set` variables.
- `src/names.rs`: groups of command names.
- `src/outside.rs`: calls into std that vstd does not specify.
- `app/main.rs`: the `makeinfo` command line program (arguments, files).
