# Twill

Twill is a local-first study application for concept-based retrieval practice and
spaced repetition. This crate holds its rules as a library verified with Verus, and the
code that connects them to the database, the file system and the outside parsers.

## Layout

- `src/` is the verified library. Every public function states what it returns in its
  contract, and the laws of the library are public proof functions:
  - `content`, `templates`, `css`: what rich documents, custom template HTML and CSS
    snippets may contain;
  - `concepts`, `organizations`, `cards`, `card_application`, `retrieval_forms`: reading
    concept requests, deck and tag selections, planning the cards of a concept, and what
    carrying out that plan leaves;
  - `study`, `mixed_practice`, `search`: grading states and counters, the order of mixed
    practice, search expressions and paging;
  - `media`, `authoring`, `card_quality`, `preferences`, `lifecycle`, `runtime`,
    `entity`: images, drafts, card concerns, device preferences, window actions,
    start-up options and stored names;
  - `text`, `id_set`, `json_access`, `models`: shared text handling, identifier sets,
    JSON access and the data model.
- `app/` is ordinary Rust around the library: the SQLite store, files on disk, the JSON
  wire formats, the FSRS scheduler, occlusion geometry and the CSS parser's traits, all
  of which rest on floating point, I/O or the traits of outside crates. The component
  values of a parsed stylesheet are handed back to `css` to be judged.
- `tests/` runs the library on concrete values.

## Trusted calls

The library calls `ammonia`, `image`, `sha2`, `uuid` and `str::to_lowercase` through
small wrappers whose contracts are stated, not proved; each wrapper's doc comment says
what it claims.
