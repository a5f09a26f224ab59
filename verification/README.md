# wardrobe-platform

The verified core of the wardrobe app's platform layer: its decisions,
record codecs, statements and network rules, written in Verus. The parts that
need the app's shared core types live outside this crate.

- `src/` is the verified library. Each module states its behaviour in
  `requires`/`ensures` contracts over spec functions, and the laws that span
  several functions are public proof functions (`lemma_*`). Calls into outside
  crates (rusqlite, url, image, sha2, hmac, chacha20poly1305, uuid, time,
  ipnet, getrandom, serde_json, zeroize) go through small trusted wrappers whose
  contracts name what the call returns.
- The database statements of the PhotoKit repository are built by the
  functions of `photokit_statements`, whose contracts fix each statement's
  text and the values bound to its parameters.
- `receipt_intelligence_request` holds the decisions of a receipt
  intelligence request as a step function from state and event to the next
  state and the outside work to do.
- `tests/` runs the library on concrete values.
- `app/` holds the network plumbing that cannot be verified: the receipt image
  downloader over `reqwest` and the system resolver, which takes every
  decision through the library.
