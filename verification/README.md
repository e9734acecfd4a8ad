# whimsi

A library and a command line tool that build Windows Installer (MSI)
packages, on Windows and Linux alike.

- `src/` is the library, verified with Verus: the rows of the installer
  tables and their keys, the builder that keeps the tables consistent with
  each other, the resolution of `[Property]` and `[[SystemFolder]]`
  references in paths, the steps that turn a configuration into tables, the
  ordering of the cabinets, and the source tree model.
- `app/` is the program around it: the command line, reading the
  configuration file, walking the source directories, and writing the
  package with the `msi` and `cab` crates.
- `tests/` exercises the library on concrete values.

Paths are taken apart with `std::path::Path::components`, which reads `\`,
`:` and a leading `//` differently on each platform. The library's
contracts about paths are therefore stated for paths without those, which
every platform reads alike: a leading `/` is allowed, and the root counts as
the first component. Where a path refers to properties, only the property
values that its resolution reaches need to be such paths. On other paths the
library still runs, with nothing stated about the outcome.
