# nizaam_indexing

The logical model of the Nizaam indexing engine, verified with Verus:
index identities and namespaces, key material and its canonical encoding,
index definitions, versions and their lifecycle, and the candidate
workflow of building, updating in batches, rebuilding and publishing.
Every function in `src/` carries a contract that states what it returns,
and the laws that tie the operations together are proved there as public
proof functions.

## Layout

- `src/identity`, `src/index`, `src/requirement`: identities, values and
  their validation.
- `src/consistency`: version compatibility and publication eligibility.
- `src/build`: candidate construction, updates with their journal,
  bounded batches, rebuilds and publication.
- `src/diagnostic`: the plain parts of an error report (code, class,
  message, details) that every error type of the library gives.
- `src/order`, `src/text`, `src/encoding`, `src/message`: byte order of
  names, text checks, length-prefixed encoding and message text.
- `app/`: retrieval hits and results, which carry floating-point metrics.

## What is not here

The engine runtime, capability dispatch and engine registration belong to
the shared core runtime, which this crate does not depend on. For the same
reason errors are reported as plain parts: turning them into the core's
error value, with an execution context, is left to the code that holds
that context.
