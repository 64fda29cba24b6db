# JavaScript code printer

A verified printer that turns a JavaScript syntax tree into source text,
either pretty (newlines, four-space indentation, spaces around operators) or
minified.

- `src/ast.rs`: the syntax tree and operator binding powers.
- `src/generator.rs`: the output buffer with its indentation level.
- `src/render.rs`: what text each piece of syntax becomes.
- `src/printable.rs`: which trees can be printed without a panic, and functions
  that test it.
- `src/codegen.rs`: the printing itself and `generate_code`.
- `src/number.rs`, `src/text.rs`: integer text, identifier test, string quoting.
- `src/tokens.rs`: operator tokens are visible ASCII and pairwise distinct.
- `src/layout.rs`: texts without line breaks, and what one more level of indentation does.
- `src/laws.rs`: minified code ignores indentation and is never longer; when no
  name, label, key or float text holds a line break, minified code holds none and
  pretty code one level deeper has four more spaces after each line break.
- `app/lib.rs`: float literals, which need floating point.
