# pls

The verified core of `pls`, a bash-like shell, with the pieces of SQLite,
random-number, error-description and known-folder support it carries.

- `src/` is the library, written in Verus: every function there is proved
  against its contract, except four small trusted wrappers whose bodies
  call `String::push`, `char::from_u32`, `getrandom::fill` and the `regex`
  crate; their contracts state what those calls do, and are believed.
  - `is`, `parses`, `lines`, `tokens`, `replies`, `api`, `path`, `regex`,
    `builtins`: classifying and tokenising input lines, the search path,
    command replies.
  - `pipeline`: reading a line as a pipeline of commands (`run` plans it;
    the program starts the processes and `pipeline::finish` gives the
    reply).
  - `text`: character classes, trimming, prefixes, splitting, decimal text.
  - `dirs`: which Windows known folder each user directory comes from.
  - `rngs`: the system random source and its error codes.
  - `errno`: decoding the UTF-16 description of an error number.
  - `sqlite`: result codes, open parameters, C strings, batch stepping, and
    the decisions around preparing, executing and querying.
- `app/` is the program around it: reading the environment, asking the
  operating system and the SQLite engine, printing.
- `tests/` runs the library on concrete inputs.

## Outside crates

- `regex`: compiling and matching the patterns of `regex::contains`
  (`regex::search` also hands back the crate's error for an invalid
  pattern, which the program prints).
- `getrandom`: the operating system's random source behind `rngs`. The
  shell's own random-number module reads it by calling Windows'
  `ProcessPrng` through a foreign declaration, which a verified library
  cannot make; `getrandom::fill` makes that same call on Windows (and the
  platform's equivalent elsewhere), so `rngs` calls it behind one trusted
  wrapper and proves everything around it.
