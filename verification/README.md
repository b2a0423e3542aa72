# Hudson Sandbox

The rules of the Hudson Sandbox service as a verified library, with the store
and the network edges around it.

The library decides; it does no I/O. Each decision takes the rows that were read
under the right locks, the time the database gave, and what a host reported, and
answers with what to write, what to send, or why it refuses. Verus proves each
decision against its contract, and proves the laws that hold across decisions:
that no create is dispatched twice, that a retired serial is never admitted again,
that evidence of one owner never settles the work of another, that a reserved
history prefix is never enlarged, that stored encodings and object keys tell apart
everything they hold. Reading an encoding back is serde's work, in `app/`.

## Layout

- `src/` is the library.
  - Identities and texts: `ids`, `text`, `token`, `idempotency`, `digest`.
  - JSON: `canonical`, `document`, `json`, with what their encodings tell apart in
    `document_laws`, `encoding_laws` and `storage_laws`; object keys in `key_laws`.
  - Guests and hosts: `guest`, `guest_model`, `guest_wire`, `bootstrap`, `command`,
    `supervisor`, `supervisor_files`, `files`, `file_wire`, `file_downloads`,
    `file_sources`, `output`, `live_output`, `history`.
  - Launch authority: `allocation_authority`, `allocation_retirement`, and the laws of
    their histories in `authority_laws`.
  - The store's decisions: `store`, one module for each kind of work.
- `tests/` runs the library on concrete values.
- `app/` runs the queries, speaks the wire protocols, and carries the serde forms of
  the stored values.

Times are nanoseconds since the epoch. A column of typed JSON is absent, unreadable
or a value; the library is told which.

## What is trusted

A few calls into other crates stand behind small functions whose contracts are
believed: UUID parsing and rendering, SHA-256, hexadecimal, constant-time
comparison, entropy, JSON string quoting, the range of representable instants and,
from the standard library, the debug form of a text and which characters are white
space.
Each names the function it calls and says what is claimed of it.
