# portfolio_cli

A command-line tool that manages a portfolio of software-architecture
projects (Kotlin, Java and Rust projects built in hexagonal, onion, layered,
pipeline or microkernel style), and the library it is built on.

The library under `src/` is written in Verus: every function states what it
returns in its contract, and Verus proves the code against it.

- `domain/`: identifiers and names with their validation, languages,
  architectures and statuses with their transitions, the project entity, the
  portfolio aggregate (no identifier twice) with its filters and statistics.
- `application/`: the commands and queries, and what each use case decides:
  the project a creation command makes, the changes an update applies, the
  directories and files of a new project, the portfolio document.
- `infrastructure/`: the configuration and where it is looked for, the stored
  form of a project and how it reads back, launch plans of build tools,
  version-control arguments, the path rule of the editor.
- `presentation/`: the command line, what the tool decides from it, and the
  rows and lines of listings.
- `models.rs`, `commands/`, `config.rs`, `application/commands/`: the
  commands over plain project records (lookup by name, filters by name,
  launch, documents, and project creation with its own layout).
- `text.rs`: text helpers, and the calls into `str::to_lowercase` and other
  std functions that Verus takes on trust.

`app/` is the program: it parses the command line with clap, reads and
writes files (TOML with serde, directory walks with walkdir), starts git,
editors and build tools, prints with colored and tabled, and computes the
completion rate, a floating-point quotient, which it hands to the library as
text.
