# gencomp

The verified core of a tool that scaffolds UI component packages (a
component, its mocks and its story) from Handlebars templates.

- `src/` is the library, checked by Verus: first-letter case conversion
  (`case`), Unix path joining (`path`), template kinds and the naming context
  (`domain`), where the components directory is (`discovery`), the naming
  helpers offered to templates (`engine`), and which template text to use
  (`templates`).
- `app/` holds what touches the disk, the embedded templates, serde and the
  Handlebars registry, and hands the library plain values.
- `tests/` runs the library.
