# 𝄐 Fermata

An S-expression notation for music scores, verified with Verus.

The library reads and writes S-expressions, converts score values to and
from them, pretty-prints whole scores, and keeps the reference tables of
`fermata show`. Verus checks the whole of `src/`: every public function
carries a contract that states its result, and the few calls into std and
owo-colors stand behind small trusted wrappers whose contracts say what
those functions are documented to do.

## Layout

- `src/sexpr/` — the S-expression values (`ast`), the reader (`parser`),
  the writer (`print`), the conversions of score values (`traits`,
  `convert/`), the score printer (`printer`, `notation_printer` for the notations of a
  note, `measure_printer` for attributes, directions and barlines), and the
  laws that tie them together:
  - `round_trip`: a value written as an S-expression reads back as the same
    value (`law_round_trip`);
  - `read_print`: the text written for an S-expression reads back as that
    S-expression (`law_print_parse`), and a value written as text reads
    back as the same value (`law_text_round_trip`). Both rest on
    `char::is_alphanumeric` classing the ASCII characters as letters and
    digits, which `confirm_ascii_classified` establishes by asking it.
- `src/ir/` — the score values that the conversions work on.
- `src/decimal.rs` — fixed-point decimals, which stand for the fractional
  quantities of a score (offsets, alterations, tempi).
- `src/text.rs` — digits, characters and their UTF-8 widths.
- `src/reference.rs` — the reference tables of `fermata show` and the text
  layout in which they are shown, with laws that tie the keywords of the
  notehead, fermata, dynamics, accidental, mode and articulation tables to
  the symbols that the printer writes.
- `app/` — the `fermata` command: the banner, and `fermata show <topic>
  [--format text|json] [--no-color]`.
- `tests/` — tests of the library, run against the compiled crate.
