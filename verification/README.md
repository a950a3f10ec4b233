# ShadowLink Rust core

A privacy-first Matrix client core (rooms, E2EE messaging, media, location
sharing, session persistence) split in two:

- `src/` — the library, verified with Verus: the error type and its
  messages, alias derivation, room lists and the family home room, the
  family-room creation plan, session store paths, how every SDK failure is
  reported, the session control state (sync loop, shutdown, live location,
  debug room), geo URI splitting, media metadata defaults, device trust.
  Room IDs, user IDs and MIME types are checked by `ruma` and `mime`
  behind small trusted wrappers whose contracts are stated in their doc
  comments.
- `app/` — the async Matrix client around it (`matrix-sdk`, `tokio`, disk,
  callbacks, floating-point coordinates). It performs the I/O and takes its
  decisions from the library, apart from the floating-point coordinate
  checks and the conversions of SDK types.

`tests/` exercises the library on concrete values.
