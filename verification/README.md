# mactux

The verified core of a compatibility layer that runs Linux x86-64 programs on macOS.

- `src/` is the library, checked by Verus: the Linux structures and their conversions to and
  from the Darwin ones, the text formats (fstab, the exported descriptor table), the messages
  to the server and their framing, the ELF and `#!` loader's plans, and the decisions of the
  runtime and of the system call handlers. Each public function states in its contract what it
  returns; the laws that tie several functions together are public proof functions.
- `tests/` runs the library on concrete values.
- `app/` is the unverified glue: the bincode twins of the messages, the socket to the server,
  the logger, the memory mappings of a program image and the pointer-level side of the system
  call handlers.

The thread tables (`rtenv::thread::TidMap`, `rtenv::emuctx::ThreadInfoMap`) and the virtual
descriptor table (`rtenv::vfd::VfdTable`) keep their entries in a vector with unique keys, with
a `Map` view. A `HashMap` keyed through `rustc_hash::FxBuildHasher` was not used: vstd's
`HashMap` specifications hold only for hashers that are known to build valid hashers
(`builds_valid_hashers`), and that cannot be established for `FxBuildHasher` without an
assumption.
