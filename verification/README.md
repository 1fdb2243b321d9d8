# open_scribe

Durable session semantics for a local conversation recorder, verified with Verus.

- `src/` is the verified library: session records and the session state
  machine with its presentation and announcements (`types`, `domain`,
  `controller`), the native boundary records (`native`), and every decision
  of the durable store — request and receipt shapes (`validation`), journal
  framing and its digest chain (`journal`), PCM CAF inspection (`caf`,
  `media`), the steps of preparation, media authorization, first samples,
  seals and interruption (`decisions`), restart recovery (`recovery`), the
  library projection (`runtime`) — and the public site's delivery policy
  (`site`). Laws that span several functions are public proof functions next
  to the functions they relate.
- `app/` performs what the library decides: the SQLite projection, the
  journal files, the managed media directories, and the foreign-interface
  exports for the platform shell.
- `tests/` exercises the library on concrete values.
