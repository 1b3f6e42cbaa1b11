# jojobot_mcp — the memory surface, verified

The memory tools of jojobot (capture, recall, search, declare_type and the
entity verbs) decide a great deal before and after the store does its work:
which token a caller sent and what it means, which refusal answers a mistake,
what a search says it covered, what a capture left standing. This crate holds
those decisions, each with a contract proved by Verus.

What it does not hold is the work those decisions surround: the store, the
write guard and the mailboxes live in crates of their own, which are not part
of this one, so the verb handlers that drive them — and the JSON layout of
the values those crates return — are not here. For the layouts, what each one
decides (which keys an answer carries, and the notes it writes) is in
`answers`.

Layout:

- `src/` — the verified library. `text` and `vocab` are the vocabulary;
  `parse` the grammar of every argument; `declined` the refusals; `search`,
  `recall`, `declare_type`, `capture`, `new_fact`, `retract`, `entities`
  and `due` what each verb decides; `answers` what an answer says of itself;
  `laws` the properties that hold across the library; `fixtures` the argument
  sets a caller starts from.
- `tests/` — the library's tests, run against the compiled crate.
- `app/` — the edge: the arguments as the protocol delivers them, answers as
  JSON, and the one clock read.
